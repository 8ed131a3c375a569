use vstd::prelude::*;

verus! {

/// Placement of an image on the square canvas the embedding model expects:
/// the canvas side is the image's longer side, and the image is centred on
/// it, so its aspect ratio is kept and the rest is padding.
#[derive(Debug, Clone, Copy, PartialEq, Eq, Structural)]
pub struct Letterbox {
    /// Side of the square canvas.
    pub side: u32,
    /// Columns of padding left of the image.
    pub left: u32,
    /// Rows of padding above the image.
    pub top: u32,
}

/// Centres a `width` x `height` image on a square canvas of its longer side.
pub fn letterbox(width: u32, height: u32) -> (r: Letterbox)
    ensures
        r.side == if width >= height { width } else { height },
        r.left == (r.side - width) / 2,
        r.top == (r.side - height) / 2,
        r.left + width <= r.side,
        r.top + height <= r.side,
{
    let side: u32 = if width >= height { width } else { height };
    Letterbox { side, left: (side - width) / 2, top: (side - height) / 2 }
}

} // verus!
