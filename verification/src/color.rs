//! RGB color values and their conversion to HSV.
//!
//! The converter normalizes the three channels to [0, 1], takes max, min and
//! delta, and derives the hue by the six-case maximal-channel formula, the
//! saturation as delta over max and the value as max, hue wrapped into
//! [0, 360] and the two percentages rounded to the nearest integer. All of it
//! is exact integer arithmetic over the common denominator, so the result is
//! the same on every platform.

use vstd::prelude::*;

verus! {

/// An RGB color as three 8-bit channels.
#[derive(Clone, Copy, Debug, PartialEq, Eq, Structural)]
pub struct Color {
    pub red: u8,
    pub green: u8,
    pub blue: u8,
}

/// The largest of the three channel values.
pub open spec fn max3(r: int, g: int, b: int) -> int {
    if r >= g && r >= b {
        r
    } else if g >= b {
        g
    } else {
        b
    }
}

/// The smallest of the three channel values.
pub open spec fn min3(r: int, g: int, b: int) -> int {
    if r <= g && r <= b {
        r
    } else if g <= b {
        g
    } else {
        b
    }
}

/// `num / den` rounded to the nearest integer, halves rounding up.
/// Meaningful for `num >= 0` and `den > 0`.
pub open spec fn round_ratio(num: int, den: int) -> int {
    (2 * num + den) / (2 * den)
}

/// The numerator of the hue fraction over denominator `delta`: the six-case
/// formula branched on which channel is maximal, already wrapped into
/// [0, 360) by adding a full turn where the red-maximal case goes negative.
pub open spec fn hue_numerator(r: int, g: int, b: int) -> int {
    let d = max3(r, g, b) - min3(r, g, b);
    if r >= g && r >= b {
        if g >= b {
            60 * (g - b)
        } else {
            360 * d - 60 * (b - g)
        }
    } else if g >= b {
        120 * d + 60 * (b - r)
    } else {
        240 * d + 60 * (r - g)
    }
}

/// The hue in degrees, 0 to 360, with 0 for achromatic input.
pub open spec fn hsv_hue(r: int, g: int, b: int) -> int {
    let d = max3(r, g, b) - min3(r, g, b);
    if d == 0 {
        0
    } else {
        round_ratio(hue_numerator(r, g, b), d)
    }
}

/// The saturation as a percentage, 0 to 100: delta over max, with 0 when
/// max is 0.
pub open spec fn hsv_saturation(r: int, g: int, b: int) -> int {
    let mx = max3(r, g, b);
    let d = mx - min3(r, g, b);
    if mx == 0 {
        0
    } else {
        round_ratio(100 * d, mx)
    }
}

/// The value (brightness) as a percentage, 0 to 100: max over the full
/// channel range.
pub open spec fn hsv_value(r: int, g: int, b: int) -> int {
    round_ratio(100 * max3(r, g, b), 255)
}

impl Color {
    pub fn new(red: u8, green: u8, blue: u8) -> (c: Self)
        ensures
            c.red == red,
            c.green == green,
            c.blue == blue,
    {
        Self { red, green, blue }
    }

    /// Converts the color to a hue in degrees and saturation and value
    /// percentages.
    pub fn to_hsv(&self) -> (hsv: (u16, u8, u8))
        ensures
            hsv.0 as int == hsv_hue(self.red as int, self.green as int, self.blue as int),
            hsv.1 as int == hsv_saturation(self.red as int, self.green as int, self.blue as int),
            hsv.2 as int == hsv_value(self.red as int, self.green as int, self.blue as int),
            hsv.0 <= 360,
            hsv.1 <= 100,
            hsv.2 <= 100,
    {
        let r = self.red;
        let g = self.green;
        let b = self.blue;
        let mx: u8 = if r >= g && r >= b {
            r
        } else if g >= b {
            g
        } else {
            b
        };
        let mn: u8 = if r <= g && r <= b {
            r
        } else if g <= b {
            g
        } else {
            b
        };
        let d: u8 = mx - mn;

        let value: u8 = ((200 * (mx as u32) + 255) / 510) as u8;

        let saturation: u8 = if mx == 0 {
            0
        } else {
            ((200 * (d as u32) + mx as u32) / (2 * (mx as u32))) as u8
        };

        let hue: u16 = if d == 0 {
            0
        } else {
            let du = d as u32;
            let num: u32 = if r >= g && r >= b {
                if g >= b {
                    60 * ((g - b) as u32)
                } else {
                    360 * du - 60 * ((b - g) as u32)
                }
            } else if g >= b {
                if b >= r {
                    120 * du + 60 * ((b - r) as u32)
                } else {
                    120 * du - 60 * ((r - b) as u32)
                }
            } else {
                if r >= g {
                    240 * du + 60 * ((r - g) as u32)
                } else {
                    240 * du - 60 * ((g - r) as u32)
                }
            };
            proof {
                lemma_round_ratio_bound(num as int, du as int, 360);
            }
            ((2 * num + du) / (2 * du)) as u16
        };

        proof {
            if mx != 0 {
                lemma_round_ratio_bound(100 * (d as int), mx as int, 100);
            }
        }

        (hue, saturation, value)
    }
}

/// For `0 <= num <= bound * den` and `den > 0`, the rounded ratio stays
/// within `bound`.
proof fn lemma_round_ratio_bound(num: int, den: int, bound: int)
    requires
        den > 0,
        bound >= 0,
        0 <= num <= bound * den,
    ensures
        0 <= round_ratio(num, den) <= bound,
{
    assert(0 <= (2 * num + den) / (2 * den) <= bound) by (nonlinear_arith)
        requires
            den > 0,
            bound >= 0,
            0 <= num <= bound * den,
    ;
}

/// Law: achromatic input, all three channels equal, has hue 0 and
/// saturation 0.
pub proof fn lemma_achromatic(v: u8)
    ensures
        hsv_hue(v as int, v as int, v as int) == 0,
        hsv_saturation(v as int, v as int, v as int) == 0,
{
    if v != 0 {
        assert(round_ratio(0, v as int) == 0) by (nonlinear_arith)
            requires v > 0,
        ;
    }
}

} // verus!
