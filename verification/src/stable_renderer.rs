//! A renderer that keeps the picture's proportions whatever the window's
//! shape: whenever the window, the picture or the scale laid over it changes,
//! the quad's scale is computed anew.

use crate::aspect::{fit, fit_scale, lemma_fit_keeps_one_axis, lemma_fit_preserves_aspect, Scale};
use crate::error::ViewerError;
use crate::image_renderer::ImageRenderer;
use crate::texture::Texture;
use vstd::prelude::*;

verus! {

/// An `ImageRenderer` whose quad is always scaled to the picture's
/// proportions.
#[derive(Debug, Clone, Copy, PartialEq, Eq)]
pub struct StableAspectRatioImageRenderer {
    pub image_renderer: ImageRenderer,
    pub window_size: [i32; 2],
    /// The scale on top of which the picture is fitted. The quad's own
    /// scale is in `image_renderer`.
    pub scale: Scale,
}

impl StableAspectRatioImageRenderer {
    /// What a fit is computed from is in order: the window has an area, the
    /// picture has one if there is a picture, and the scale is bounded.
    pub open spec fn inputs_wf(self) -> bool {
        &&& self.image_renderer.wf()
        &&& self.window_size[0] > 0
        &&& self.window_size[1] > 0
        &&& self.scale.bounded()
    }

    /// The scale that the quad must have while a picture is shown.
    pub open spec fn fitted_scale(self) -> Scale {
        fit_scale(
            self.scale,
            self.window_size[0] as int,
            self.window_size[1] as int,
            self.image_renderer.texture_size[0] as int,
            self.image_renderer.texture_size[1] as int,
        )
    }

    /// The inputs are in order and the quad's scale is up to date.
    pub open spec fn wf(self) -> bool {
        &&& self.inputs_wf()
        &&& self.image_renderer.texture_loaded ==> self.image_renderer.scale == self.fitted_scale()
    }

    /// The renderer with the quad's scale computed anew. Without a picture
    /// there is nothing to fit, and the quad keeps its scale.
    pub open spec fn refit(self) -> StableAspectRatioImageRenderer {
        if self.image_renderer.texture_loaded {
            StableAspectRatioImageRenderer {
                image_renderer: self.image_renderer.with_scale(self.fitted_scale()),
                ..self
            }
        } else {
            self
        }
    }

    /// The renderer in a window of `size`.
    pub open spec fn resized(self, size: [i32; 2]) -> StableAspectRatioImageRenderer {
        (StableAspectRatioImageRenderer { window_size: size, ..self }).refit()
    }

    /// The renderer with `scale` laid over the fit.
    pub open spec fn rescaled(self, scale: Scale) -> StableAspectRatioImageRenderer {
        (StableAspectRatioImageRenderer { scale, ..self }).refit()
    }

    /// The renderer once `texture` has been offered to it: a picture with
    /// an area is shown and fitted, another one changes nothing.
    pub open spec fn shown(self, texture: Texture) -> StableAspectRatioImageRenderer {
        if texture.has_area() {
            (StableAspectRatioImageRenderer {
                image_renderer: self.image_renderer.with_texture(texture),
                ..self
            }).refit()
        } else {
            self
        }
    }

    /// `image_renderer` in a window of one pixel, with no scale laid over
    /// the fit.
    pub open spec fn wrapping(image_renderer: ImageRenderer) -> StableAspectRatioImageRenderer {
        (StableAspectRatioImageRenderer {
            image_renderer,
            window_size: [1, 1],
            scale: Scale::identity(),
        }).refit()
    }

    /// Wraps `image_renderer` for a window of one pixel, with no scale laid
    /// over the fit.
    pub fn new(image_renderer: ImageRenderer) -> (r: StableAspectRatioImageRenderer)
        requires
            image_renderer.wf(),
        ensures
            r == StableAspectRatioImageRenderer::wrapping(image_renderer),
            r.wf(),
    {
        let mut r = StableAspectRatioImageRenderer {
            image_renderer,
            window_size: [1, 1],
            scale: Scale::identity(),
        };
        r.recalculate_aspect_ratio();
        r
    }

    /// Takes note of the window's new size, which must have an area.
    pub fn resize_window(&mut self, size: [i32; 2])
        requires
            old(self).inputs_wf(),
            size[0] > 0,
            size[1] > 0,
        ensures
            *final(self) == old(self).resized(size),
            final(self).wf(),
    {
        self.window_size = size;
        self.recalculate_aspect_ratio();
    }

    /// Computes the quad's scale anew from the window, the picture and the
    /// scale laid over the fit.
    pub fn recalculate_aspect_ratio(&mut self)
        requires
            old(self).inputs_wf(),
        ensures
            *final(self) == old(self).refit(),
            final(self).wf(),
    {
        if self.image_renderer.texture_loaded {
            let scale = fit(self.scale, self.window_size, self.image_renderer.get_image_size());
            self.image_renderer.set_scale(scale);
        }
    }

    /// Shows `texture` from now on, fitted into the window. A picture
    /// without area is refused, and what was shown stays.
    pub fn set_texture_data(&mut self, texture: &Texture) -> (r: Result<(), ViewerError>)
        requires
            old(self).inputs_wf(),
        ensures
            r.err() == texture.refusal(),
            *final(self) == old(self).shown(*texture),
            final(self).inputs_wf(),
            old(self).wf() || texture.has_area() ==> final(self).wf(),
    {
        if !texture.has_area() {
            return Err(ViewerError::EmptyImage);
        }
        match self.image_renderer.set_texture_data(texture) {
            Ok(()) => {
                self.recalculate_aspect_ratio();
                Ok(())
            },
            Err(e) => Err(e),
        }
    }

    /// The size of the picture that is shown, width first; `[0, 0]` before
    /// the first one.
    pub fn get_image_size(&self) -> (size: [i32; 2])
        ensures
            size == self.image_renderer.texture_size,
    {
        self.image_renderer.get_image_size()
    }

    /// Lays `scale` over the fit.
    pub fn set_scale(&mut self, scale: Scale)
        requires
            old(self).inputs_wf(),
            scale.bounded(),
        ensures
            *final(self) == old(self).rescaled(scale),
            final(self).wf(),
    {
        self.scale = scale;
        self.recalculate_aspect_ratio();
    }
}

/// While a picture is shown, the quad's scale has one axis at the scale
/// laid over the fit and the other no larger than it, and the quad has the
/// picture's proportions.
pub proof fn lemma_shown_picture_is_fitted(r: StableAspectRatioImageRenderer)
    requires
        r.wf(),
        r.image_renderer.texture_loaded,
    ensures
        ({
            let s = r.image_renderer.scale;
            let w = r.window_size[0] as int;
            let h = r.window_size[1] as int;
            let iw = r.image_renderer.texture_size[0] as int;
            let ih = r.image_renderer.texture_size[1] as int;
            &&& s.x.positive() && s.y.positive()
            &&& s.x == r.scale.x || s.y == r.scale.y
            &&& s.x.at_most(r.scale.x) && s.y.at_most(r.scale.y)
            &&& (w * ih) * (s.x.num * s.y.den) == (iw * h) * (s.y.num * s.x.den)
        }),
{
    let w = r.window_size[0];
    let h = r.window_size[1];
    let iw = r.image_renderer.texture_size[0];
    let ih = r.image_renderer.texture_size[1];
    lemma_fit_keeps_one_axis(r.scale, w, h, iw, ih);
    lemma_fit_preserves_aspect(r.scale, w, h, iw, ih);
}

} // verus!
