//! What is known of the quad and of the picture drawn on it: the handles of
//! the objects on the graphics card, the picture's size, and the scale that
//! the vertex shader applies to the quad.

use crate::aspect::Scale;
use crate::error::ViewerError;
use crate::texture::Texture;
use vstd::prelude::*;

verus! {

/// The handles of the quad's vertex buffer and of the vertex array that
/// describes its layout.
#[derive(Debug, Clone, Copy, PartialEq, Eq)]
pub struct BufferData {
    pub buffer: u32,
    pub vertex_array: u32,
}

/// Draws one picture on one quad.
#[derive(Debug, Clone, Copy, PartialEq, Eq)]
pub struct ImageRenderer {
    pub program: u32,
    pub vertex_array: u32,
    pub buffer: u32,
    pub texture: u32,
    pub texture_loaded: bool,
    pub texture_size: [i32; 2],
    /// The value of the shader's `scale` uniform.
    pub scale: Scale,
}

impl ImageRenderer {
    /// The picture that is shown, if one is, has an area: it can be fitted
    /// into a window.
    pub open spec fn wf(self) -> bool {
        self.texture_loaded ==> self.texture_size[0] > 0 && self.texture_size[1] > 0
    }

    /// The renderer once `texture` is shown.
    pub open spec fn with_texture(self, texture: Texture) -> ImageRenderer {
        ImageRenderer {
            texture: texture.texture_id,
            texture_size: texture.size,
            texture_loaded: true,
            ..self
        }
    }

    /// The renderer once the quad is scaled by `scale`.
    pub open spec fn with_scale(self, scale: Scale) -> ImageRenderer {
        ImageRenderer { scale, ..self }
    }

    /// A renderer for the linked program `program` and the quad in
    /// `buffers`. It shows no picture yet: `texture` is the handle of an
    /// empty texture object. The quad fills the window.
    pub fn new(program: u32, texture: u32, buffers: BufferData) -> (r: ImageRenderer)
        ensures
            r.program == program,
            r.vertex_array == buffers.vertex_array,
            r.buffer == buffers.buffer,
            r.texture == texture,
            !r.texture_loaded,
            r.texture_size[0] == 0 && r.texture_size[1] == 0,
            r.scale == Scale::identity(),
            r.wf(),
    {
        ImageRenderer {
            program,
            vertex_array: buffers.vertex_array,
            buffer: buffers.buffer,
            texture,
            texture_loaded: false,
            texture_size: [0, 0],
            scale: Scale::identity(),
        }
    }

    /// Shows `texture` from now on, whatever its size. This never fails.
    pub fn set_texture_data(&mut self, texture: &Texture) -> (r: Result<(), ViewerError>)
        ensures
            r == Ok::<(), ViewerError>(()),
            *final(self) == old(self).with_texture(*texture),
    {
        self.texture = texture.texture_id;
        self.texture_size = texture.size;
        self.texture_loaded = true;
        Ok(())
    }

    /// The size of the picture that is shown, width first; `[0, 0]` before
    /// the first one.
    pub fn get_image_size(&self) -> (size: [i32; 2])
        ensures
            size == self.texture_size,
    {
        self.texture_size
    }

    /// Scales the quad by `scale`.
    pub fn set_scale(&mut self, scale: Scale)
        ensures
            *final(self) == old(self).with_scale(scale),
    {
        self.scale = scale;
    }
}

} // verus!
