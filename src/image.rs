//! Captured images and the frames built from them.
use vstd::prelude::*;

verus! {

/// The captured rectangle: origin, size, and an optional scale in percent.
#[derive(Clone, Copy, Debug, PartialEq, Eq, Structural)]
pub struct Geometry {
    pub x: i32,
    pub y: i32,
    pub width: u32,
    pub height: u32,
    pub scale: Option<u32>,
}

impl Geometry {
    pub fn new(x: i32, y: i32, width: u32, height: u32, scale: Option<u32>) -> (r: Self)
        ensures
            r == (Geometry { x, y, width, height, scale }),
    {
        Geometry { x, y, width, height, scale }
    }

    /// Number of pixels in the rectangle.
    pub open spec fn pixel_count(&self) -> nat {
        self.width as nat * self.height as nat
    }
}

/// The pixel bytes in red, green, blue, alpha order: `data` itself when it is
/// already in that order, else `data` read as blue, green, red, alpha.
pub open spec fn rgba_of(data: Seq<u8>, bgra: bool) -> Seq<u8> {
    Seq::new(
        data.len(),
        |i: int|
            if bgra && i % 4 == 0 && i + 2 < data.len() {
                data[i + 2]
            } else if bgra && i % 4 == 2 {
                data[i - 2]
            } else {
                data[i]
            },
    )
}

/// A pixel buffer of four bytes per pixel with its geometry. `bgra` tells that
/// the channels are stored as blue, green, red, alpha and must be reordered
/// before encoding.
#[derive(Clone, Debug)]
pub struct Image {
    pub data: Vec<u8>,
    pub bgra: bool,
    pub geometry: Geometry,
}

impl Image {
    pub fn new(data: Vec<u8>, bgra: bool, geometry: Geometry) -> (r: Self)
        ensures
            r == (Image { data, bgra, geometry }),
    {
        Image { data, bgra, geometry }
    }

    /// The buffer holds exactly four bytes for each pixel of the geometry.
    pub open spec fn wf(&self) -> bool {
        self.data@.len() == 4 * self.geometry.pixel_count()
    }

    /// The pixel bytes in red, green, blue, alpha order.
    pub fn get_rgba(&self) -> (r: Vec<u8>)
        ensures
            r@ == rgba_of(self.data@, self.bgra),
    {
        let n = self.data.len();
        let mut out: Vec<u8> = Vec::with_capacity(n);
        let mut i: usize = 0;
        while i < n
            invariant
                n == self.data@.len(),
                i <= n,
                out@.len() == i,
                forall|j: int| 0 <= j < i ==> out@[j] == #[trigger] rgba_of(self.data@, self.bgra)[j],
            decreases n - i,
        {
            let b: u8 = if self.bgra && i % 4 == 0 && i + 2 < n {
                self.data[i + 2]
            } else if self.bgra && i % 4 == 2 {
                self.data[i - 2]
            } else {
                self.data[i]
            };
            out.push(b);
            i = i + 1;
        }
        assert(out@ =~= rgba_of(self.data@, self.bgra));
        out
    }
}

/// An image with the time it is shown, in hundredths of a second.
#[derive(Clone, Debug)]
pub struct CapturedFrame {
    pub image: Image,
    pub delay: u16,
}

impl CapturedFrame {
    pub fn new(image: Image, delay: u16) -> (r: Self)
        ensures
            r == (CapturedFrame { image, delay }),
    {
        CapturedFrame { image, delay }
    }
}

} // verus!
