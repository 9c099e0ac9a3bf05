use vstd::prelude::*;
use crate::surface::{demultiplied, demultiply_pixel};

verus! {

/// Width, height and `4 * width * height` bytes of RGBA pixels, row by row.
#[derive(Debug)]
pub struct PixelBuffer {
    pub width: u32,
    pub height: u32,
    pub data: Vec<u8>,
}

/// The number of bytes that `width * height` RGBA pixels take.
pub open spec fn rgba_len(width: nat, height: nat) -> nat {
    width * height * 4
}

/// The four bytes of pixel `k`.
pub open spec fn pixel_at(s: Seq<u8>, k: int) -> (u8, u8, u8, u8) {
    (s[4 * k], s[4 * k + 1], s[4 * k + 2], s[4 * k + 3])
}

/// Channel `c` (0 red, 1 green, 2 blue, 3 alpha) of a pixel.
pub open spec fn channel(px: (u8, u8, u8, u8), c: int) -> u8 {
    if c == 0 {
        px.0
    } else if c == 1 {
        px.1
    } else if c == 2 {
        px.2
    } else {
        px.3
    }
}

/// A premultiplied pixel as unpremultiplied RGBA; bytes whose colour exceeds
/// their alpha are no premultiplied colour and are kept as they are.
pub open spec fn unmultiplied_pixel(px: (u8, u8, u8, u8)) -> (u8, u8, u8, u8) {
    if px.0 <= px.3 && px.1 <= px.3 && px.2 <= px.3 {
        demultiplied(px)
    } else {
        px
    }
}

/// Premultiplied RGBA bytes turned into unpremultiplied RGBA, pixel by pixel.
pub open spec fn unmultiplied(s: Seq<u8>) -> Seq<u8> {
    Seq::new(s.len(), |i: int| channel(unmultiplied_pixel(pixel_at(s, i / 4)), i % 4))
}

/// Turns premultiplied RGBA bytes into unpremultiplied RGBA bytes.
pub fn unmultiply(data: &Vec<u8>) -> (out: Vec<u8>)
    requires
        data@.len() % 4 == 0,
    ensures
        out@ == unmultiplied(data@),
{
    let n = data.len();
    let mut out: Vec<u8> = Vec::with_capacity(n);
    let mut i: usize = 0;
    while i < n
        invariant
            n == data@.len(),
            n % 4 == 0,
            i % 4 == 0,
            i <= n,
            out@.len() == i,
            forall|j: int| 0 <= j < i ==> out@[j] == #[trigger] unmultiplied(data@)[j],
        decreases n - i,
    {
        let r = data[i];
        let g = data[i + 1];
        let b = data[i + 2];
        let a = data[i + 3];
        let px = if r <= a && g <= a && b <= a {
            demultiply_pixel(r, g, b, a)
        } else {
            (r, g, b, a)
        };
        proof {
            let k = i as int / 4;
            assert(4 * k == i as int);
            assert(pixel_at(data@, k) == (r, g, b, a));
            assert((i as int) / 4 == k && (i as int) % 4 == 0);
            assert((i as int + 1) / 4 == k && (i as int + 1) % 4 == 1);
            assert((i as int + 2) / 4 == k && (i as int + 2) % 4 == 2);
            assert((i as int + 3) / 4 == k && (i as int + 3) % 4 == 3);
        }
        out.push(px.0);
        out.push(px.1);
        out.push(px.2);
        out.push(px.3);
        i = i + 4;
    }
    assert(out@ =~= unmultiplied(data@));
    out
}

impl PixelBuffer {
    /// The pixel data holds exactly four bytes for each pixel.
    pub open spec fn wf(&self) -> bool {
        self.data@.len() == rgba_len(self.width as nat, self.height as nat)
    }

    pub fn width(&self) -> (r: u32)
        ensures
            r == self.width,
    {
        self.width
    }

    pub fn height(&self) -> (r: u32)
        ensures
            r == self.height,
    {
        self.height
    }

    pub fn data(&self) -> (r: &Vec<u8>)
        ensures
            r@ == self.data@,
    {
        &self.data
    }
}

/// Why a rasterization attempt produced no pixel buffer.
#[derive(Debug, PartialEq, Eq)]
pub enum RasterError {
    /// The bytes are not a vector image; holds the parser's message.
    Parse(String),
    /// No pixel surface of this size can exist: a side is zero or too large.
    Allocation { width: u64, height: u64 },
    /// The parsed document could not be drawn.
    Render,
}

} // verus!
