//! A picture that has been uploaded to the graphics card.

use crate::error::ViewerError;
use vstd::prelude::*;

verus! {

/// The handle of an uploaded picture and its size in pixels, width first.
#[derive(Debug, Clone, Copy, PartialEq, Eq)]
pub struct Texture {
    pub texture_id: u32,
    pub size: [i32; 2],
}

/// What a 32-bit pixel count becomes when it is stored as a signed one:
/// itself below `2^31`, and `2^32` less from there on.
pub open spec fn as_signed(n: u32) -> int {
    if n <= i32::MAX {
        n as int
    } else {
        n - 0x1_0000_0000
    }
}

/// Stores an unsigned pixel count as a signed one.
fn to_signed(n: u32) -> (r: i32)
    ensures
        r == as_signed(n),
{
    if n <= 0x7fff_ffff {
        n as i32
    } else {
        let over: u32 = n - 0x8000_0000;
        let low: i32 = over as i32;
        low + i32::MIN
    }
}

impl Texture {
    /// The texture `texture_id` with a picture of `width` by `height`
    /// pixels in it.
    pub open spec fn uploaded(texture_id: u32, width: u32, height: u32) -> Texture {
        Texture { texture_id, size: [as_signed(width) as i32, as_signed(height) as i32] }
    }

    /// The texture `texture_id`, into which the picture of a file, `width`
    /// by `height` pixels, has been uploaded.
    pub fn from_file(texture_id: u32, width: u32, height: u32) -> (t: Texture)
        ensures
            t == Texture::uploaded(texture_id, width, height),
            t.texture_id == texture_id,
            t.size[0] == as_signed(width),
            t.size[1] == as_signed(height),
    {
        Texture { texture_id, size: [to_signed(width), to_signed(height)] }
    }

    /// Both sides are at least one pixel long.
    pub open spec fn spec_has_area(&self) -> bool {
        self.size[0] > 0 && self.size[1] > 0
    }

    /// Why the picture cannot be shown, if it cannot: it has no area.
    pub open spec fn refusal(&self) -> Option<ViewerError> {
        if self.has_area() {
            None
        } else {
            Some(ViewerError::EmptyImage)
        }
    }

    /// Whether both sides are at least one pixel long.
    #[verifier::when_used_as_spec(spec_has_area)]
    pub fn has_area(&self) -> (b: bool)
        ensures
            b == self.spec_has_area(),
    {
        self.size[0] > 0 && self.size[1] > 0
    }
}

} // verus!
