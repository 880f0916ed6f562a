//! Terminal colors as plain values, and their RGB approximations.
//!
//! The host rendering library's color type is mirrored here as a plain enum
//! so that the color math can be verified; the conversion to and from the
//! host type is a one-for-one mapping done by the caller.

use vstd::prelude::*;

verus! {

/// A terminal foreground color: the 16 ANSI colors, the reset/default
/// sentinel, a 256-palette index, or a 24-bit RGB value.
#[derive(Clone, Copy, Debug, PartialEq, Eq, Structural)]
pub enum TermColor {
    Reset,
    Black,
    Red,
    Green,
    Yellow,
    Blue,
    Magenta,
    Cyan,
    Gray,
    DarkGray,
    LightRed,
    LightGreen,
    LightYellow,
    LightBlue,
    LightMagenta,
    LightCyan,
    White,
    Indexed(u8),
    Rgb(u8, u8, u8),
}

/// An RGB triple, one byte per channel.
#[derive(Clone, Copy, Debug, PartialEq, Eq, Structural)]
pub struct Rgb {
    pub r: u8,
    pub g: u8,
    pub b: u8,
}

/// RGB approximation of a 256-palette color index: the 16 ANSI colors,
/// the 6x6x6 color cube, then the 24-step grayscale ramp.
pub open spec fn spec_indexed_to_rgb(code: u8) -> Rgb {
    if code == 0 {
        Rgb { r: 0, g: 0, b: 0 }
    } else if code == 1 {
        Rgb { r: 170, g: 0, b: 0 }
    } else if code == 2 {
        Rgb { r: 0, g: 170, b: 0 }
    } else if code == 3 {
        Rgb { r: 170, g: 85, b: 0 }
    } else if code == 4 {
        Rgb { r: 0, g: 0, b: 170 }
    } else if code == 5 {
        Rgb { r: 170, g: 0, b: 170 }
    } else if code == 6 {
        Rgb { r: 0, g: 170, b: 170 }
    } else if code == 7 {
        Rgb { r: 170, g: 170, b: 170 }
    } else if code == 8 {
        Rgb { r: 85, g: 85, b: 85 }
    } else if code == 9 {
        Rgb { r: 255, g: 85, b: 85 }
    } else if code == 10 {
        Rgb { r: 85, g: 255, b: 85 }
    } else if code == 11 {
        Rgb { r: 255, g: 255, b: 85 }
    } else if code == 12 {
        Rgb { r: 85, g: 85, b: 255 }
    } else if code == 13 {
        Rgb { r: 255, g: 85, b: 255 }
    } else if code == 14 {
        Rgb { r: 85, g: 255, b: 255 }
    } else if code == 15 {
        Rgb { r: 255, g: 255, b: 255 }
    } else if 16 <= code && code <= 231 {
        let adjusted = (code - 16) as int;
        Rgb {
            r: spec_cube_channel(adjusted / 36),
            g: spec_cube_channel((adjusted % 36) / 6),
            b: spec_cube_channel(adjusted % 6),
        }
    } else {
        let gray = (8 + (code - 232) * 10) as u8;
        Rgb { r: gray, g: gray, b: gray }
    }
}

/// One channel of the 6x6x6 color cube: level 0 is 0, levels 1..=5 step by 40
/// from 95.
pub open spec fn spec_cube_channel(level: int) -> u8 {
    if level == 0 {
        0
    } else {
        (55 + level * 40) as u8
    }
}

/// RGB approximation of a terminal color; the reset/default sentinel has
/// none.
pub open spec fn spec_color_to_rgb(color: TermColor) -> Option<Rgb> {
    match color {
        TermColor::Reset => None,
        TermColor::Black => Some(Rgb { r: 0, g: 0, b: 0 }),
        TermColor::Red => Some(Rgb { r: 170, g: 0, b: 0 }),
        TermColor::Green => Some(Rgb { r: 0, g: 170, b: 0 }),
        TermColor::Yellow => Some(Rgb { r: 170, g: 85, b: 0 }),
        TermColor::Blue => Some(Rgb { r: 0, g: 0, b: 170 }),
        TermColor::Magenta => Some(Rgb { r: 170, g: 0, b: 170 }),
        TermColor::Cyan => Some(Rgb { r: 0, g: 170, b: 170 }),
        TermColor::Gray => Some(Rgb { r: 170, g: 170, b: 170 }),
        TermColor::DarkGray => Some(Rgb { r: 85, g: 85, b: 85 }),
        TermColor::LightRed => Some(Rgb { r: 255, g: 85, b: 85 }),
        TermColor::LightGreen => Some(Rgb { r: 85, g: 255, b: 85 }),
        TermColor::LightYellow => Some(Rgb { r: 255, g: 255, b: 85 }),
        TermColor::LightBlue => Some(Rgb { r: 85, g: 85, b: 255 }),
        TermColor::LightMagenta => Some(Rgb { r: 255, g: 85, b: 255 }),
        TermColor::LightCyan => Some(Rgb { r: 85, g: 255, b: 255 }),
        TermColor::White => Some(Rgb { r: 255, g: 255, b: 255 }),
        TermColor::Indexed(code) => Some(spec_indexed_to_rgb(code)),
        TermColor::Rgb(r, g, b) => Some(Rgb { r, g, b }),
    }
}

/// Maps a 256-palette color index to its standard RGB approximation.
pub fn indexed_to_rgb(code: u8) -> (rgb: Rgb)
    ensures
        rgb == spec_indexed_to_rgb(code),
{
    match code {
        0 => Rgb { r: 0, g: 0, b: 0 },
        1 => Rgb { r: 170, g: 0, b: 0 },
        2 => Rgb { r: 0, g: 170, b: 0 },
        3 => Rgb { r: 170, g: 85, b: 0 },
        4 => Rgb { r: 0, g: 0, b: 170 },
        5 => Rgb { r: 170, g: 0, b: 170 },
        6 => Rgb { r: 0, g: 170, b: 170 },
        7 => Rgb { r: 170, g: 170, b: 170 },
        8 => Rgb { r: 85, g: 85, b: 85 },
        9 => Rgb { r: 255, g: 85, b: 85 },
        10 => Rgb { r: 85, g: 255, b: 85 },
        11 => Rgb { r: 255, g: 255, b: 85 },
        12 => Rgb { r: 85, g: 85, b: 255 },
        13 => Rgb { r: 255, g: 85, b: 255 },
        14 => Rgb { r: 85, g: 255, b: 255 },
        15 => Rgb { r: 255, g: 255, b: 255 },
        _ => {
            if code <= 231 {
                let adjusted = code - 16;
                let r = cube_channel(adjusted / 36);
                let g = cube_channel((adjusted % 36) / 6);
                let b = cube_channel(adjusted % 6);
                Rgb { r, g, b }
            } else {
                let gray = 8 + (code - 232) * 10;
                Rgb { r: gray, g: gray, b: gray }
            }
        },
    }
}

fn cube_channel(level: u8) -> (v: u8)
    requires
        level <= 5,
    ensures
        v == spec_cube_channel(level as int),
{
    if level == 0 {
        0
    } else {
        55 + level * 40
    }
}

/// Maps a terminal color to its RGB approximation; the reset/default
/// sentinel yields none.
pub fn color_to_rgb(color: TermColor) -> (rgb: Option<Rgb>)
    ensures
        rgb == spec_color_to_rgb(color),
{
    match color {
        TermColor::Reset => None,
        TermColor::Black => Some(Rgb { r: 0, g: 0, b: 0 }),
        TermColor::Red => Some(Rgb { r: 170, g: 0, b: 0 }),
        TermColor::Green => Some(Rgb { r: 0, g: 170, b: 0 }),
        TermColor::Yellow => Some(Rgb { r: 170, g: 85, b: 0 }),
        TermColor::Blue => Some(Rgb { r: 0, g: 0, b: 170 }),
        TermColor::Magenta => Some(Rgb { r: 170, g: 0, b: 170 }),
        TermColor::Cyan => Some(Rgb { r: 0, g: 170, b: 170 }),
        TermColor::Gray => Some(Rgb { r: 170, g: 170, b: 170 }),
        TermColor::DarkGray => Some(Rgb { r: 85, g: 85, b: 85 }),
        TermColor::LightRed => Some(Rgb { r: 255, g: 85, b: 85 }),
        TermColor::LightGreen => Some(Rgb { r: 85, g: 255, b: 85 }),
        TermColor::LightYellow => Some(Rgb { r: 255, g: 255, b: 85 }),
        TermColor::LightBlue => Some(Rgb { r: 85, g: 85, b: 255 }),
        TermColor::LightMagenta => Some(Rgb { r: 255, g: 85, b: 255 }),
        TermColor::LightCyan => Some(Rgb { r: 85, g: 255, b: 255 }),
        TermColor::White => Some(Rgb { r: 255, g: 255, b: 255 }),
        TermColor::Indexed(code) => Some(indexed_to_rgb(code)),
        TermColor::Rgb(r, g, b) => Some(Rgb { r, g, b }),
    }
}

} // verus!
