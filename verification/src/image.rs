//! The pixel buffer the renderer writes into: a row-major grid of packed
//! `0x00RRGGBB` colour words.

use vstd::prelude::*;

use crate::bitmap::le_byte;

verus! {

/// A rendered image: `width * height` packed pixels in row-major order.
pub struct Image {
    pub width: u32,
    pub height: u32,
    pub pixels: Vec<u32>,
}

impl Image {
    /// A buffer is well formed when it holds exactly one word per pixel.
    pub open spec fn wf(self) -> bool {
        self.pixels@.len() == self.width * self.height
    }

    /// Allocates a black (all-zero) image of the given dimensions.
    pub fn make(width: u32, height: u32) -> (img: Image)
        requires
            width * height <= u32::MAX,
        ensures
            img.width == width,
            img.height == height,
            img.wf(),
            forall|i: int| 0 <= i < img.pixels@.len() ==> img.pixels@[i] == 0u32,
    {
        let n: u32 = width * height;
        let mut pixels: Vec<u32> = Vec::new();
        let mut i: u32 = 0;
        while i < n
            invariant
                i <= n,
                pixels@.len() == i,
                forall|j: int| 0 <= j < i ==> pixels@[j] == 0u32,
            decreases n - i,
        {
            pixels.push(0);
            i = i + 1;
        }
        Image { width, height, pixels }
    }

    /// Mutable access to the pixel at `(x, y)`: the buffer word at index
    /// `y * width + x`, or `None` when that index is out of the buffer.
    pub fn pixel(&mut self, x: u32, y: u32) -> (r: Option<&mut u32>)
        ensures
            y * old(self).width + x < old(self).pixels@.len() ==> ({
                &&& r is Some
                &&& *r->Some_0 == old(self).pixels@[y * old(self).width + x]
                &&& final(self).pixels@ == old(self).pixels@.update(
                    y * old(self).width + x,
                    *final(r->Some_0),
                )
                &&& final(self).width == old(self).width
                &&& final(self).height == old(self).height
            }),
            y * old(self).width + x >= old(self).pixels@.len() ==> r is None && *final(self)
                == *old(self),
    {
        proof {
            assert(y as int * self.width as int + x as int <= u64::MAX) by (nonlinear_arith)
                requires
                    y <= u32::MAX,
                    self.width <= u32::MAX,
                    x <= u32::MAX,
            ;
        }
        let idx: u64 = y as u64 * self.width as u64 + x as u64;
        if idx < self.pixels.len() as u64 {
            Some(&mut self.pixels[idx as usize])
        } else {
            None
        }
    }
}

/// Packs three 8-bit colour channels into one `0x00RRGGBB` word.
pub fn pack_rgb(r: u32, g: u32, b: u32) -> (p: u32)
    requires
        r < 256,
        g < 256,
        b < 256,
    ensures
        p == r * 0x10000 + g * 0x100 + b,
        p <= 0xffffff,
        le_byte(p, 2) == r,
        le_byte(p, 1) == g,
        le_byte(p, 0) == b,
{
    proof {
        assert((r << 16u32) | (g << 8u32) | b == r * 0x10000 + g * 0x100 + b
            && (r << 16u32) | (g << 8u32) | b <= 0xffffff && (((r << 16u32) | (g << 8u32) | b)
            / 0x10000) % 256 == r && (((r << 16u32) | (g << 8u32) | b) / 0x100) % 256 == g && ((r
            << 16u32) | (g << 8u32) | b) % 256 == b) by (bit_vector)
            requires
                r < 256u32,
                g < 256u32,
                b < 256u32,
        ;
    }
    (r << 16u32) | (g << 8u32) | b
}

} // verus!
