use vstd::prelude::*;

verus! {

/// Why palette data could not be used.
#[derive(Clone, Copy, PartialEq, Eq, Structural, Debug)]
pub enum PaletteError {
    /// Fewer than the 64 colours a NES picture uses.
    TooShort,
    /// The data is not a whole number of RGB triples.
    NotTriples,
}

/// The RGB colour of each NES colour index.
pub struct Palette {
    pub palette: Vec<(u8, u8, u8)>,
}

/// The colours held in palette data: consecutive red, green, blue bytes.
pub open spec fn colours_of(data: Seq<u8>) -> Seq<(u8, u8, u8)> {
    Seq::new(data.len() / 3, |i: int| (data[3 * i], data[3 * i + 1], data[3 * i + 2]))
}

impl Palette {
    /// Reads palette data (the contents of a `.pal` file): RGB triples, at least 64 of
    /// them.
    pub fn from_bytes(data: &[u8]) -> (r: Result<Palette, PaletteError>)
        ensures
            data@.len() < 192 <==> r == Err::<Palette, PaletteError>(PaletteError::TooShort),
            data@.len() >= 192 && data@.len() % 3 != 0 <==> r == Err::<Palette, PaletteError>(
                PaletteError::NotTriples,
            ),
            r matches Ok(p) ==> p.palette@ == colours_of(data@),
    {
        if data.len() < 192 {
            return Err(PaletteError::TooShort);
        }
        if data.len() % 3 != 0 {
            return Err(PaletteError::NotTriples);
        }
        let len = data.len();
        let n = len / 3;
        assert(3 * n <= len) by (nonlinear_arith)
            requires
                n == len / 3,
        ;
        let mut palette: Vec<(u8, u8, u8)> = Vec::new();
        let mut i: usize = 0;
        while i < n
            invariant
                len == data@.len(),
                n == data@.len() / 3,
                3 * n <= len,
                i <= n,
                palette@ == colours_of(data@).take(i as int),
            decreases n - i,
        {
            assert(3 * i + 2 < data@.len());
            palette.push((data[3 * i], data[3 * i + 1], data[3 * i + 2]));
            i += 1;
            proof {
                assert(palette@ =~= colours_of(data@).take(i as int));
            }
        }
        proof {
            assert(palette@ =~= colours_of(data@));
        }
        Ok(Palette { palette })
    }
}

} // verus!
