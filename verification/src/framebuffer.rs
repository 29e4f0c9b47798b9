//! The destination surface: a width × height grid of RGBA8 pixels, stored
//! row-major as `u32` values (red in the highest byte, alpha in the lowest).
//! Writes outside the surface are skipped, never an error.

use vstd::prelude::*;

verus! {

/// A pixel surface owned by the rasterizer.
pub struct Framebuffer {
    pub width: usize,
    pub height: usize,
    pub pixels: Vec<u32>,
}

impl Framebuffer {
    /// One pixel per grid cell.
    pub open spec fn wf(&self) -> bool {
        self.pixels@.len() == self.width * self.height
    }

    /// Build a surface with every pixel set to `color`.
    pub fn new(width: usize, height: usize, color: u32) -> (r: Framebuffer)
        requires
            width * height <= usize::MAX,
        ensures
            r.wf(),
            r.width == width,
            r.height == height,
            forall|k: int| 0 <= k < r.pixels@.len() ==> r.pixels@[k] == color,
    {
        proof {
            if height > 0 {
                assert(width * height >= width * 1 == width) by (nonlinear_arith)
                    requires
                        height >= 1,
                        width >= 0,
                ;
            }
        }
        let n = if height == 0 {
            0
        } else {
            width * height
        };
        let mut pixels: Vec<u32> = Vec::new();
        while pixels.len() < n
            invariant
                pixels@.len() <= n,
                forall|k: int| 0 <= k < pixels@.len() ==> pixels@[k] == color,
            decreases n - pixels@.len(),
        {
            pixels.push(color);
        }
        proof {
            if height == 0 {
                assert(width * height == 0) by (nonlinear_arith)
                    requires
                        height == 0,
                ;
            }
        }
        Framebuffer { width, height, pixels }
    }

    /// Set every pixel to `color`.
    pub fn clear(&mut self, color: u32)
        requires
            old(self).wf(),
        ensures
            final(self).wf(),
            final(self).width == old(self).width,
            final(self).height == old(self).height,
            forall|k: int| 0 <= k < final(self).pixels@.len() ==> final(self).pixels@[k] == color,
            final(self).pixels@.len() == old(self).pixels@.len(),
    {
        let n = self.pixels.len();
        let mut k: usize = 0;
        while k < n
            invariant
                k <= n,
                self.pixels@.len() == n,
                self.width == old(self).width,
                self.height == old(self).height,
                old(self).wf(),
                self.wf(),
                forall|j: int| 0 <= j < k ==> self.pixels@[j] == color,
            decreases n - k,
        {
            self.pixels[k] = color;
            k += 1;
        }
    }

    /// Write one pixel; coordinates outside the surface are skipped.
    pub fn set_pixel(&mut self, x: i64, y: i64, color: u32)
        requires
            old(self).wf(),
        ensures
            final(self).wf(),
            final(self).width == old(self).width,
            final(self).height == old(self).height,
            0 <= x < old(self).width && 0 <= y < old(self).height ==> final(self).pixels@ == old(
                self,
            ).pixels@.update(y * old(self).width + x, color),
            !(0 <= x < old(self).width && 0 <= y < old(self).height) ==> final(self).pixels@
                == old(self).pixels@,
    {
        if x >= 0 && y >= 0 && (x as u64) < (self.width as u64) && (y as u64)
            < (self.height as u64) {
            let xi = x as usize;
            let yi = y as usize;
            let n = self.pixels.len();
            proof {
                assert(yi * self.width + xi < self.width * self.height) by (nonlinear_arith)
                    requires
                        0 <= xi < self.width,
                        0 <= yi < self.height,
                ;
            }
            let idx = yi * self.width + xi;
            self.pixels[idx] = color;
        }
    }

    /// Read one pixel.
    pub fn get_pixel(&self, x: usize, y: usize) -> (r: u32)
        requires
            self.wf(),
            x < self.width,
            y < self.height,
        ensures
            r == self.pixels@[y * self.width + x],
    {
        let n = self.pixels.len();
        proof {
            assert(y * self.width + x < self.width * self.height) by (nonlinear_arith)
                requires
                    0 <= x < self.width,
                    0 <= y < self.height,
            ;
        }
        self.pixels[y * self.width + x]
    }
}

} // verus!
