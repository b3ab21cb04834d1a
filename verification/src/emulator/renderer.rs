use vstd::prelude::*;
use crate::console::{SCREEN_HEIGHT, SCREEN_WIDTH};
use crate::console::ppu::Ppu;
use crate::renderer::palette::{Palette, PaletteError, colours_of};

verus! {

/// Turns the console PPU's picture into RGBA bytes.
pub struct Renderer {
    pub palette: Palette,
}

/// The RGBA bytes of a picture of colour indices under a palette: four bytes per pixel,
/// fully opaque.
pub open spec fn rgba_of(frame: Seq<u8>, palette: Seq<(u8, u8, u8)>) -> Seq<u8> {
    Seq::new(frame.len() * 4, |k: int| {
        let (r, g, b) = palette[frame[k / 4] as int];
        let c = k % 4;
        if c == 0 {
            r
        } else if c == 1 {
            g
        } else if c == 2 {
            b
        } else {
            255u8
        }
    })
}

impl Renderer {
    /// A renderer with the palette in `palette_data` (the contents of a `.pal` file).
    pub fn new(palette_data: &[u8]) -> (r: Result<Self, PaletteError>)
        ensures
            palette_data@.len() < 192 <==> r == Err::<Renderer, PaletteError>(PaletteError::TooShort),
            palette_data@.len() >= 192 && palette_data@.len() % 3 != 0 <==> r == Err::<Renderer, PaletteError>(
                PaletteError::NotTriples,
            ),
            r matches Ok(rd) ==> rd.palette.palette@ == colours_of(palette_data@),
    {
        match Palette::from_bytes(palette_data) {
            Ok(palette) => Ok(Renderer { palette }),
            Err(e) => Err(e),
        }
    }

    /// The PPU's picture as RGBA bytes.
    pub fn render_texture(&mut self, ppu: &Ppu) -> (r: Vec<u8>)
        requires
            ppu@.frame.len() == SCREEN_WIDTH * SCREEN_HEIGHT,
            forall|i: int| 0 <= i < ppu@.frame.len() ==> ppu@.frame[i] < old(self).palette.palette@.len(),
        ensures
            r@ == rgba_of(ppu@.frame, old(self).palette.palette@),
            *final(self) == *old(self),
    {
        let mut texture: Vec<u8> = Vec::new();
        let mut idx: usize = 0;
        while idx < ppu.frame.len()
            invariant
                idx <= ppu@.frame.len() == SCREEN_WIDTH * SCREEN_HEIGHT,
                forall|i: int| 0 <= i < ppu@.frame.len() ==> ppu@.frame[i] < self.palette.palette@.len(),
                texture@ == rgba_of(ppu@.frame, self.palette.palette@).take(4 * idx),
            decreases ppu@.frame.len() - idx,
        {
            let pixel = ppu.frame[idx];
            let (r, g, b) = self.palette.palette[pixel as usize];
            texture.push(r);
            texture.push(g);
            texture.push(b);
            texture.push(255);
            idx += 1;
            proof {
                assert(texture@ =~= rgba_of(ppu@.frame, self.palette.palette@).take(4 * idx));
            }
        }
        proof {
            assert(texture@ =~= rgba_of(ppu@.frame, self.palette.palette@));
        }
        texture
    }

    /// Whether every colour index of the PPU's picture has a palette entry.
    pub fn covers(&self, ppu: &Ppu) -> (r: bool)
        ensures
            r == forall|i: int| 0 <= i < ppu@.frame.len() ==> ppu@.frame[i] < self.palette.palette@.len(),
    {
        let mut idx: usize = 0;
        while idx < ppu.frame.len()
            invariant
                idx <= ppu@.frame.len(),
                forall|i: int| 0 <= i < idx ==> ppu@.frame[i] < self.palette.palette@.len(),
            decreases ppu@.frame.len() - idx,
        {
            if ppu.frame[idx] as usize >= self.palette.palette.len() {
                return false;
            }
            idx += 1;
        }
        true
    }
}

} // verus!
