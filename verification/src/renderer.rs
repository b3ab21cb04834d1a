pub mod frame;
pub mod palette;

use vstd::prelude::*;
use egui::Color32;
use crate::ppu::Ppu;
use crate::renderer::palette::{Palette, PaletteError};

verus! {

#[verifier::external_type_specification]
#[verifier::external_body]
pub struct ExColor32(Color32);

/// The colour `Color32::from_rgb` makes of three channel values.
pub uninterp spec fn rgb_color(r: u8, g: u8, b: u8) -> Color32;

/// Calls `Color32::from_rgb` (egui), which packs the three channels with full opacity.
/// `Color32` keeps its four bytes private, so the contract names the colour (the same
/// channels always give the same colour) and leaves its bytes `(r, g, b, 255)` unsaid.
#[verifier::external_body]
fn color_from_rgb(r: u8, g: u8, b: u8) -> (c: Color32)
    ensures
        c == rgb_color(r, g, b),
{
    Color32::from_rgb(r, g, b)
}

/// Turns the PPU's picture into displayable colours.
pub struct Renderer {
    pub palette: Palette,
}

impl Renderer {
    /// A renderer with the palette in `palette_data` (the contents of a `.pal` file).
    pub fn new(palette_data: &[u8]) -> (r: Result<Self, PaletteError>)
        ensures
            palette_data@.len() < 192 <==> r == Err::<Renderer, PaletteError>(PaletteError::TooShort),
            palette_data@.len() >= 192 && palette_data@.len() % 3 != 0 <==> r == Err::<Renderer, PaletteError>(
                PaletteError::NotTriples,
            ),
            r matches Ok(rd) ==> rd.palette.palette@ == crate::renderer::palette::colours_of(palette_data@),
    {
        match Palette::from_bytes(palette_data) {
            Ok(palette) => Ok(Renderer { palette }),
            Err(e) => Err(e),
        }
    }

    /// The colour of every pixel of the PPU's picture.
    pub fn render_texture(&mut self, ppu: &Ppu) -> (r: Vec<Color32>)
        requires
            forall|i: int| 0 <= i < ppu@.frame.len() ==> ppu@.frame[i] < old(self).palette.palette@.len(),
        ensures
            r@.len() == ppu@.frame.len(),
            forall|i: int| 0 <= i < r@.len() ==> {
                let (cr, cg, cb) = old(self).palette.palette@[ppu@.frame[i] as int];
                #[trigger] r@[i] == rgb_color(cr, cg, cb)
            },
            *final(self) == *old(self),
    {
        let mut texture: Vec<Color32> = Vec::new();
        let mut idx: usize = 0;
        while idx < ppu.frame.len()
            invariant
                idx <= ppu@.frame.len(),
                texture@.len() == idx,
                forall|i: int| 0 <= i < ppu@.frame.len() ==> ppu@.frame[i] < self.palette.palette@.len(),
                forall|i: int| 0 <= i < idx ==> {
                    let (cr, cg, cb) = self.palette.palette@[ppu@.frame[i] as int];
                    #[trigger] texture@[i] == rgb_color(cr, cg, cb)
                },
            decreases ppu@.frame.len() - idx,
        {
            let pixel = ppu.frame[idx];
            let (r, g, b) = self.palette.palette[pixel as usize];
            texture.push(color_from_rgb(r, g, b));
            idx += 1;
        }
        texture
    }
}

} // verus!
