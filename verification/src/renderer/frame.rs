use vstd::prelude::*;

verus! {

pub const WIDTH: usize = 256;
pub const HEIGHT: usize = 240;

/// An RGB picture of the screen, three bytes per pixel, row by row.
#[derive(Clone)]
pub struct Frame {
    pub data: Vec<u8>,
}

/// Offset in the picture data of the pixel at (x, y).
pub open spec fn pixel_base(x: int, y: int) -> int {
    (y * 256 + x) * 3
}

impl Frame {
    pub fn new() -> (r: Self)
        ensures
            r.data@ == Seq::new((WIDTH * HEIGHT * 3) as nat, |i: int| 0u8),
    {
        let r = Frame { data: vec![0; WIDTH * HEIGHT * 3] };
        proof {
            assert(r.data@ =~= Seq::new((WIDTH * HEIGHT * 3) as nat, |i: int| 0u8));
        }
        r
    }

    /// Sets the pixel at (x, y).
    pub fn set_pixel(&mut self, x: usize, y: usize, rgb: (u8, u8, u8))
        requires
            pixel_base(x as int, y as int) + 2 < old(self).data@.len(),
        ensures
            final(self).data@ == old(self).data@.update(pixel_base(x as int, y as int), rgb.0).update(
                pixel_base(x as int, y as int) + 1,
                rgb.1,
            ).update(pixel_base(x as int, y as int) + 2, rgb.2),
    {
        let len = self.data.len();
        assert(y * 256 + x <= (y * 256 + x) * 3 < len);
        let base = (y * 256 + x) * 3;
        self.data.set(base, rgb.0);
        self.data.set(base + 1, rgb.1);
        self.data.set(base + 2, rgb.2);
    }

    /// The pixel at (x, y).
    pub fn _pixel(&self, x: usize, y: usize) -> (r: (u8, u8, u8))
        requires
            pixel_base(x as int, y as int) + 2 < self.data@.len(),
        ensures
            r == (self.data@[pixel_base(x as int, y as int)], self.data@[pixel_base(x as int, y as int)
                + 1], self.data@[pixel_base(x as int, y as int) + 2]),
    {
        let len = self.data.len();
        assert(y * 256 + x <= (y * 256 + x) * 3 < len);
        let base = (y * 256 + x) * 3;
        (self.data[base], self.data[base + 1], self.data[base + 2])
    }
}

/// Writing a pixel and reading it back gives the colour written.
pub proof fn lemma_set_then_get(data: Seq<u8>, x: int, y: int, rgb: (u8, u8, u8))
    requires
        0 <= x,
        0 <= y,
        pixel_base(x, y) + 2 < data.len(),
    ensures
        ({
            let b = pixel_base(x, y);
            let d = data.update(b, rgb.0).update(b + 1, rgb.1).update(b + 2, rgb.2);
            (d[b], d[b + 1], d[b + 2]) == rgb
        }),
{
}

} // verus!
