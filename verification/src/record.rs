//! The values that travel through the recorder: captured images and the
//! GIF frames made from them.
use vstd::prelude::*;

verus! {

/// One captured pixel, in the blue-green-red order of the X server's
/// 32-bit ZPixmap layout (the padding byte is not kept).
#[derive(Debug, Clone, Copy, PartialEq, Eq, Structural)]
pub struct Bgr8 {
    pub b: u8,
    pub g: u8,
    pub r: u8,
}

/// A captured screen image with its sequence number.
///
/// `Image` holds the pixels row by row, `width * height` of them
/// (see `wf`).
#[derive(Debug)]
pub struct Image {
    pub id: u64,
    pub Image: Vec<Bgr8>,
    pub width: u16,
    pub height: u16,
}

impl Image {
    /// The image holds exactly one pixel per position of its
    /// `width` by `height` rectangle.
    pub open spec fn wf(&self) -> bool {
        self.Image@.len() == self.width * self.height
    }
}

/// A GIF frame as the GIF encoder's RGB constructor leaves it: the frame's
/// size, its local colour palette (RGB triples), the transparent index if
/// any, and one palette index per pixel. All other frame settings keep the
/// encoder's defaults (no delay, disposal `Keep`, no offset, not
/// interlaced).
#[derive(Debug)]
pub struct Frame {
    pub width: u16,
    pub height: u16,
    pub transparent: Option<u8>,
    pub palette: Option<Vec<u8>>,
    pub buffer: Vec<u8>,
}

/// An encoded frame together with the sequence number of the image it
/// was made from.
#[derive(Debug)]
pub struct gifFrame {
    pub frame: Frame,
    pub id: u64,
}

} // verus!
