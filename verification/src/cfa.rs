//! The sensor's Bayer colour filter array.

use vstd::prelude::*;

verus! {

/// The colour of one photosite in the sensor's colour filter array.
#[derive(Debug, Clone, Copy, PartialEq, Eq, Hash, Structural)]
pub enum CfaColor {
    /// Red-filtered photosite.
    Red,
    /// Green-filtered photosite. Half the array is green.
    Green,
    /// Blue-filtered photosite.
    Blue,
}

/// The sensor's Bayer colour filter array, as the 2×2 tile it repeats.
///
/// Index it `CFA_PATTERN[(y % 2) as usize][(x % 2) as usize]`, or use
/// [`cfa_color_at`]. The layout is BGGR in the raw frame's own coordinates,
/// origin top-left, no rotation:
///
/// ```text
///      x=0  x=1
/// y=0   B    G
/// y=1   G    R
/// ```
///
/// A raw frame is therefore a mosaic and must be demosaiced to get colour.
pub const CFA_PATTERN: [[CfaColor; 2]; 2] = [
    [CfaColor::Blue, CfaColor::Green],
    [CfaColor::Green, CfaColor::Red],
];

/// The BGGR phase rule: blue on even rows and columns, red on odd rows and
/// columns, green where the parities differ.
pub open spec fn spec_cfa_color(x: int, y: int) -> CfaColor {
    if y % 2 == 0 {
        if x % 2 == 0 { CfaColor::Blue } else { CfaColor::Green }
    } else {
        if x % 2 == 0 { CfaColor::Green } else { CfaColor::Red }
    }
}

/// The colour of the photosite at `(x, y)` in a raw frame.
pub fn cfa_color_at(x: u16, y: u16) -> (color: CfaColor)
    ensures
        color == spec_cfa_color(x as int, y as int),
        color == CFA_PATTERN@[(y % 2) as int]@[(x % 2) as int],
{
    assert(x & 1 == x % 2 && y & 1 == y % 2) by (bit_vector);
    CFA_PATTERN[(y & 1) as usize][(x & 1) as usize]
}

/// The pattern repeats with period two in both directions, and a photosite is
/// green exactly when its coordinates have different parity, which is half of
/// every 2×2 tile.
pub proof fn lemma_cfa_is_a_two_by_two_tile(x: int, y: int)
    requires
        0 <= x,
        0 <= y,
    ensures
        spec_cfa_color(x + 2, y) == spec_cfa_color(x, y),
        spec_cfa_color(x, y + 2) == spec_cfa_color(x, y),
        (spec_cfa_color(x, y) == CfaColor::Green) <==> ((x + y) % 2 == 1),
        (spec_cfa_color(x, y) == CfaColor::Blue) <==> (x % 2 == 0 && y % 2 == 0),
        (spec_cfa_color(x, y) == CfaColor::Red) <==> (x % 2 == 1 && y % 2 == 1),
{
}

} // verus!
