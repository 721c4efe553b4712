//! One cell of the terminal grid.

use vstd::prelude::*;

verus! {

/// A channel at full intensity: the single-precision pattern of one.
pub const CHANNEL_FULL: u32 = 0x3f80_0000;

/// A channel at no intensity: the single-precision pattern of zero.
pub const CHANNEL_NONE: u32 = 0;

/// The glyph of an empty cell: the space.
pub const BLANK_GLYPH: u16 = 32;

/// A colour of four channels.  Each channel is the 32-bit pattern of the
/// single-precision number that the renderer takes for it.  The compositor
/// copies colours into the mesh and never computes with them.
#[derive(Clone, Copy, Debug, PartialEq, Eq, Structural)]
pub struct Rgba {
    pub red: u32,
    pub green: u32,
    pub blue: u32,
    pub alpha: u32,
}

/// A cell: the index of its glyph on the font sheet and its two colours.
#[derive(Clone, Copy, Debug, PartialEq, Eq, Structural)]
pub struct TerminalGlyph {
    pub glyph: u16,
    pub foreground: Rgba,
    pub background: Rgba,
}

impl Rgba {
    /// Opaque white.
    pub open spec fn spec_white() -> Rgba {
        Rgba { red: CHANNEL_FULL, green: CHANNEL_FULL, blue: CHANNEL_FULL, alpha: CHANNEL_FULL }
    }

    /// Opaque black.
    pub open spec fn spec_black() -> Rgba {
        Rgba { red: CHANNEL_NONE, green: CHANNEL_NONE, blue: CHANNEL_NONE, alpha: CHANNEL_FULL }
    }
}

impl Default for TerminalGlyph {
    /// A blank cell: a space, white on opaque black.
    fn default() -> (r: Self)
        ensures
            r == (TerminalGlyph {
                glyph: BLANK_GLYPH,
                foreground: Rgba::spec_white(),
                background: Rgba::spec_black(),
            }),
    {
        Self {
            glyph: BLANK_GLYPH,
            foreground: Rgba {
                red: CHANNEL_FULL,
                green: CHANNEL_FULL,
                blue: CHANNEL_FULL,
                alpha: CHANNEL_FULL,
            },
            background: Rgba {
                red: CHANNEL_NONE,
                green: CHANNEL_NONE,
                blue: CHANNEL_NONE,
                alpha: CHANNEL_FULL,
            },
        }
    }
}

} // verus!
