//! Bayer color filter arrangements and the shift that aligns each of them
//! to an RGGB mosaic.
use vstd::prelude::*;

verus! {

/// The identity of a sensor's 2x2 color filter tile, read row by row.
#[derive(Clone, Copy, Debug, PartialEq, Eq, Structural)]
pub enum CfaPattern {
    Rggb,
    Grbg,
    Gbrg,
    Bggr,
}

/// The color of one photosite.
#[derive(Clone, Copy, Debug, PartialEq, Eq, Structural)]
pub enum BayerColor {
    Red,
    Green,
    Blue,
}

/// The arrangement a host code stands for; unknown codes mean RGGB.
pub open spec fn cfa_of_code(code: int) -> CfaPattern {
    if code == 1 {
        CfaPattern::Grbg
    } else if code == 2 {
        CfaPattern::Gbrg
    } else if code == 3 {
        CfaPattern::Bggr
    } else {
        CfaPattern::Rggb
    }
}

/// The color at column `dx` and row `dy` of the 2x2 tile.
pub open spec fn tile_color(p: CfaPattern, dx: int, dy: int) -> BayerColor {
    let (a, b, c, d) = match p {
        CfaPattern::Rggb => (BayerColor::Red, BayerColor::Green, BayerColor::Green, BayerColor::Blue),
        CfaPattern::Grbg => (BayerColor::Green, BayerColor::Red, BayerColor::Blue, BayerColor::Green),
        CfaPattern::Gbrg => (BayerColor::Green, BayerColor::Blue, BayerColor::Red, BayerColor::Green),
        CfaPattern::Bggr => (BayerColor::Blue, BayerColor::Green, BayerColor::Green, BayerColor::Red),
    };
    if dy == 0 {
        if dx == 0 { a } else { b }
    } else {
        if dx == 0 { c } else { d }
    }
}

/// The color of the photosite at column `x`, row `y` of a mosaic laid out in `p`.
pub open spec fn color_at(p: CfaPattern, x: nat, y: nat) -> BayerColor {
    tile_color(p, (x % 2) as int, (y % 2) as int)
}

/// Horizontal offset at which the alignment pass reads its input.
pub open spec fn shift_x(p: CfaPattern) -> nat {
    match p {
        CfaPattern::Grbg | CfaPattern::Bggr => 1,
        _ => 0,
    }
}

/// Vertical offset at which the alignment pass reads its input.
pub open spec fn shift_y(p: CfaPattern) -> nat {
    match p {
        CfaPattern::Gbrg | CfaPattern::Bggr => 1,
        _ => 0,
    }
}

impl CfaPattern {
    /// Decodes the host's arrangement code: 0 RGGB, 1 GRBG, 2 GBRG, 3 BGGR,
    /// anything else RGGB.
    pub fn from_code(code: i32) -> (r: CfaPattern)
        ensures
            r == cfa_of_code(code as int),
    {
        match code {
            1 => CfaPattern::Grbg,
            2 => CfaPattern::Gbrg,
            3 => CfaPattern::Bggr,
            _ => CfaPattern::Rggb,
        }
    }

    /// The color of the photosite at column `x`, row `y` of a mosaic laid
    /// out in this arrangement.
    pub fn color_at(self, x: u32, y: u32) -> (r: BayerColor)
        ensures
            r == color_at(self, x as nat, y as nat),
    {
        let (a, b, c, d) = match self {
            CfaPattern::Rggb => (BayerColor::Red, BayerColor::Green, BayerColor::Green, BayerColor::Blue),
            CfaPattern::Grbg => (BayerColor::Green, BayerColor::Red, BayerColor::Blue, BayerColor::Green),
            CfaPattern::Gbrg => (BayerColor::Green, BayerColor::Blue, BayerColor::Red, BayerColor::Green),
            CfaPattern::Bggr => (BayerColor::Blue, BayerColor::Green, BayerColor::Green, BayerColor::Red),
        };
        if y % 2 == 0 {
            if x % 2 == 0 { a } else { b }
        } else {
            if x % 2 == 0 { c } else { d }
        }
    }

    /// The shift vector pushed to the alignment pass:
    /// RGGB (0,0), GRBG (1,0), GBRG (0,1), BGGR (1,1).
    pub fn shift_vector(self) -> (r: [i32; 2])
        ensures
            r[0] == shift_x(self),
            r[1] == shift_y(self),
    {
        match self {
            CfaPattern::Rggb => [0, 0],
            CfaPattern::Grbg => [1, 0],
            CfaPattern::Gbrg => [0, 1],
            CfaPattern::Bggr => [1, 1],
        }
    }
}

/// Reading a mosaic in arrangement `p` at an offset of its shift vector
/// sees an RGGB mosaic: the color at `(x + sx, y + sy)` in `p` is the RGGB
/// color at `(x, y)`, for every photosite.
pub proof fn lemma_shift_aligns_to_rggb(p: CfaPattern, x: nat, y: nat)
    ensures
        color_at(p, x + shift_x(p), y + shift_y(p)) == color_at(CfaPattern::Rggb, x, y),
{
    assert((x + 1) % 2 == 1 - x % 2);
    assert((y + 1) % 2 == 1 - y % 2);
}

/// Two captures of one scene in different arrangements, each read at its own
/// shift, present the same colors at every aligned position.
pub proof fn lemma_aligned_arrangements_agree(p: CfaPattern, q: CfaPattern, x: nat, y: nat)
    ensures
        color_at(p, x + shift_x(p), y + shift_y(p)) == color_at(q, x + shift_x(q), y + shift_y(q)),
{
    lemma_shift_aligns_to_rggb(p, x, y);
    lemma_shift_aligns_to_rggb(q, x, y);
}

} // verus!
