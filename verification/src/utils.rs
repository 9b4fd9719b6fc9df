//! Mapping scalar values to colours for visualization.

use vstd::prelude::*;

verus! {

/// Saturating subtraction on byte values.
pub open spec fn byte_sat_sub(a: int, b: int) -> int {
    if a - b < 0 {
        0int
    } else {
        a - b
    }
}

/// Quadrupling a byte value, saturating at the top of the range.
pub open spec fn byte_sat_quad(a: int) -> int {
    if 4 * a > 255 {
        255int
    } else {
        4 * a
    }
}

/// The red channel of the jet colour map for a normalized byte.
pub open spec fn jet_red(x: int) -> int {
    let up = byte_sat_quad(byte_sat_sub(x, 96));
    let down = 255 - byte_sat_quad(byte_sat_sub(x, 224));
    if up < down {
        up
    } else {
        down
    }
}

/// The green channel of the jet colour map for a normalized byte.
pub open spec fn jet_green(x: int) -> int {
    let up = byte_sat_quad(byte_sat_sub(x, 32));
    let down = 255 - byte_sat_quad(byte_sat_sub(x, 160));
    if up < down {
        up
    } else {
        down
    }
}

/// The blue channel of the jet colour map for a normalized byte. An
/// input whose shift past 127 overflows the byte range contributes
/// nothing, as the reference colour map has it.
pub open spec fn jet_blue(x: int) -> int {
    let up = if x + 127 > 255 {
        0int
    } else {
        byte_sat_quad(x + 127)
    };
    let down = 255 - byte_sat_quad(byte_sat_sub(x, 96));
    if up < down {
        up
    } else {
        down
    }
}

/// Saturating subtraction on bytes.
fn sat_sub(a: u8, b: u8) -> (r: u8)
    ensures
        r == byte_sat_sub(a as int, b as int),
{
    if a < b {
        0
    } else {
        a - b
    }
}

/// Quadrupling a byte, saturating at the top of the range.
fn sat_quad(a: u8) -> (r: u8)
    ensures
        r == byte_sat_quad(a as int),
{
    if a > 63 {
        255
    } else {
        4 * a
    }
}

/// Maps a value within `[min, max]` to an RGB colour on the jet colour
/// map, whose channels ramp from blue through green to red as the
/// value crosses the interval. Returns `None` exactly when the value
/// lies outside the interval.
pub fn to_rgb(x: i64, min: i64, max: i64) -> (r: Option<[u8; 3]>)
    requires
        min < max,
        -1_000_000_000_000 <= min,
        max <= 1_000_000_000_000,
    ensures
        r is Some <==> min <= x <= max,
        r matches Some(rgb) ==> {
            let norm = 255 * (x - min) / (max - min);
            &&& rgb[0] == jet_red(norm)
            &&& rgb[1] == jet_green(norm)
            &&& rgb[2] == jet_blue(norm)
        },
{
    if x < min || x > max {
        return None;
    }
    proof {
        vstd::arithmetic::div_mod::lemma_div_pos_is_pos(255 * (x - min), max - min);
        vstd::arithmetic::div_mod::lemma_div_is_ordered(
            255 * (x - min),
            (max - min) * 255,
            max - min,
        );
        vstd::arithmetic::div_mod::lemma_div_multiples_vanish(255, max - min);
        assert(255 * ((x as int) - min) <= ((max as int) - min) * 255) by (nonlinear_arith)
            requires
                min <= x as int <= max as int,
        ;
    }
    let norm: u8 = ((255 * ((x - min) as u128)) / ((max - min) as u128)) as u8;
    let red = {
        let up = sat_quad(sat_sub(norm, 96));
        let down = 255 - sat_quad(sat_sub(norm, 224));
        if up < down {
            up
        } else {
            down
        }
    };
    let green = {
        let up = sat_quad(sat_sub(norm, 32));
        let down = 255 - sat_quad(sat_sub(norm, 160));
        if up < down {
            up
        } else {
            down
        }
    };
    let blue = {
        let up = if norm > 128 {
            0
        } else {
            sat_quad(norm + 127)
        };
        let down = 255 - sat_quad(sat_sub(norm, 96));
        if up < down {
            up
        } else {
            down
        }
    };
    Some([red, green, blue])
}

} // verus!
