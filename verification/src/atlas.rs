//! Texture atlas layout: from a glyph index to its rectangle on the sheet.

use vstd::prelude::*;
use crate::ratio::Ratio;

verus! {

/// The inward nudge is one twentieth of a texel on each edge.
pub const NUDGE_DIVISOR: u64 = 20;

/// A glyph sheet of `chars_per_row` columns and `n_rows` rows, each glyph
/// `font_height_pixels` wide and high.
#[derive(Clone, Copy, Debug)]
pub struct FontScaler {
    pub chars_per_row: u16,
    pub n_rows: u16,
    pub font_height_pixels: (u32, u32),
}

/// Left or lower edge of cell `index` on an axis of `count` cells of `pixels`
/// texels each: `index / count` moved inward by `1 / (count * pixels * 20)`.
pub open spec fn near_edge(index: int, count: int, pixels: int) -> Ratio {
    Ratio {
        num: (index * pixels * NUDGE_DIVISOR + 1) as i128,
        den: (count * pixels * NUDGE_DIVISOR) as i128,
    }
}

/// Right or upper edge of cell `index`: `(index + 1) / count` moved inward by
/// the same nudge.
pub open spec fn far_edge(index: int, count: int, pixels: int) -> Ratio {
    Ratio {
        num: ((index + 1) * pixels * NUDGE_DIVISOR - 1) as i128,
        den: (count * pixels * NUDGE_DIVISOR) as i128,
    }
}

impl FontScaler {
    /// The sheet has at least one column and one row, and a glyph at least
    /// one texel each way.
    pub open spec fn wf(self) -> bool {
        &&& self.chars_per_row >= 1
        &&& self.n_rows >= 1
        &&& self.font_height_pixels.0 >= 1
        &&& self.font_height_pixels.1 >= 1
    }

    /// Column of a glyph on the sheet.
    pub open spec fn spec_column(self, glyph: u16) -> int {
        glyph as int % self.chars_per_row as int
    }

    /// Row of a glyph on the sheet: glyphs are laid out row by row, so the
    /// divisor is the number of columns.
    pub open spec fn spec_row(self, glyph: u16) -> int {
        glyph as int / self.chars_per_row as int
    }

    /// The glyph lies on the sheet.
    pub open spec fn on_sheet(self, glyph: u16) -> bool {
        (glyph as int) < self.chars_per_row as int * self.n_rows as int
    }

    /// The rectangle `[u0, v0, u1, v1]` of a glyph.
    pub open spec fn spec_texture_coords(self, glyph: u16) -> Seq<Ratio> {
        seq![
            near_edge(self.spec_column(glyph), self.chars_per_row as int, self.font_height_pixels.0 as int),
            near_edge(self.spec_row(glyph), self.n_rows as int, self.font_height_pixels.1 as int),
            far_edge(self.spec_column(glyph), self.chars_per_row as int, self.font_height_pixels.0 as int),
            far_edge(self.spec_row(glyph), self.n_rows as int, self.font_height_pixels.1 as int),
        ]
    }

    pub fn new(chars_per_row: u16, n_rows: u16, font_height_pixels: (u32, u32)) -> (r: Self)
        ensures
            r == (FontScaler { chars_per_row, n_rows, font_height_pixels }),
    {
        Self { chars_per_row, n_rows, font_height_pixels }
    }

    /// Normalised texture rectangle `[u0, v0, u1, v1]` of a glyph, shrunk on
    /// all four edges so that linear filtering does not bleed in the
    /// neighbouring glyphs.  For a glyph on the sheet the rectangle lies
    /// strictly inside the unit square and is not empty.
    pub fn texture_coords(&self, glyph: u16) -> (r: [Ratio; 4])
        requires
            self.wf(),
        ensures
            r@ == self.spec_texture_coords(glyph),
            r[0].den == r[2].den && r[1].den == r[3].den,
            r[0].wf() && r[1].wf() && r[2].wf() && r[3].wf(),
            0 < r[0].num < r[2].num,
            0 < r[1].num < r[3].num,
            r[2].num < r[2].den,
            self.on_sheet(glyph) ==> r[3].num < r[3].den,
    {
        let base_x: u16 = glyph % self.chars_per_row;
        let base_y: u16 = glyph / self.chars_per_row;
        proof {
            if self.on_sheet(glyph) {
                assert((glyph as int / self.chars_per_row as int) < self.n_rows as int)
                    by (nonlinear_arith)
                    requires
                        (glyph as int) < self.chars_per_row as int * self.n_rows as int,
                        self.chars_per_row >= 1,
                ;
            }
        }
        let u0 = edge(base_x, self.chars_per_row, self.font_height_pixels.0, false);
        let v0 = edge(base_y, self.n_rows, self.font_height_pixels.1, false);
        let u1 = edge(base_x, self.chars_per_row, self.font_height_pixels.0, true);
        let v1 = edge(base_y, self.n_rows, self.font_height_pixels.1, true);
        let r = [u0, v0, u1, v1];
        assert(r@ =~= self.spec_texture_coords(glyph));
        r
    }
}

/// One nudged edge of cell `index`: the near one, or the far one.
fn edge(index: u16, count: u16, pixels: u32, far: bool) -> (r: Ratio)
    requires
        count >= 1,
        pixels >= 1,
    ensures
        r == if far {
            far_edge(index as int, count as int, pixels as int)
        } else {
            near_edge(index as int, count as int, pixels as int)
        },
        r.wf(),
        r.num > 0,
        far_edge(index as int, count as int, pixels as int).num > near_edge(
            index as int,
            count as int,
            pixels as int,
        ).num,
        index < count ==> r.num < r.den,
{
    let texel: u64 = pixels as u64 * NUDGE_DIVISOR;
    assert(index as int * (pixels as int * 20) == index as int * pixels as int * 20)
        by (nonlinear_arith);
    assert((index as int + 1) * (pixels as int * 20) == (index as int + 1) * pixels as int * 20)
        by (nonlinear_arith);
    assert(count as int * (pixels as int * 20) == count as int * pixels as int * 20)
        by (nonlinear_arith);
    assert(0 <= index as int * texel as int <= 0xffff * texel as int) by (nonlinear_arith)
        requires
            0 <= index <= 0xffff,
            texel >= 0,
    ;
    assert(texel as int <= count as int * texel as int <= 0xffff * texel as int)
        by (nonlinear_arith)
        requires
            1 <= count <= 0xffff,
            texel >= 0,
    ;
    assert(index < count ==> (index as int + 1) * texel as int <= count as int * texel as int)
        by (nonlinear_arith)
        requires
            texel >= 0,
    ;
    assert(texel as int <= (index as int + 1) * texel as int <= 0x10000 * texel as int)
        by (nonlinear_arith)
        requires
            0 <= index <= 0xffff,
            texel >= 0,
    ;
    assert((index as int + 1) * texel as int == index as int * texel as int + texel as int)
        by (nonlinear_arith);
    let den: u64 = count as u64 * texel;
    let num: u64 = if far {
        (index as u64 + 1) * texel - 1
    } else {
        index as u64 * texel + 1
    };
    Ratio { num: num as i128, den: den as i128 }
}

} // verus!
