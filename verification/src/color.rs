//! The palette: sixteen colours in a fixed order, each with a fixed RGB value.

use vstd::prelude::*;
use crate::error::{ParseError, ParseFailure};
use crate::hex::{byte_value, parse_byte};

verus! {

/// A colour of the palette.  The order of the variants is part of the code
/// format: a colour is written as its position in this list.
#[derive(Debug, Clone, Copy, PartialEq, Eq, Structural, Hash)]
pub enum Color {
    White,
    Orange,
    Magenta,
    LightBlue,
    Yellow,
    Lime,
    Pink,
    Gray,
    LightGray,
    Cyan,
    Purple,
    Blue,
    Brown,
    Green,
    Red,
    Black,
}

impl Color {
    /// The position of the colour in the palette, counted from zero.
    pub open spec fn spec_ordinal(self) -> int {
        match self {
            Color::White => 0,
            Color::Orange => 1,
            Color::Magenta => 2,
            Color::LightBlue => 3,
            Color::Yellow => 4,
            Color::Lime => 5,
            Color::Pink => 6,
            Color::Gray => 7,
            Color::LightGray => 8,
            Color::Cyan => 9,
            Color::Purple => 10,
            Color::Blue => 11,
            Color::Brown => 12,
            Color::Green => 13,
            Color::Red => 14,
            Color::Black => 15,
        }
    }

    /// The colour at position `n` of the palette, if there is one.
    pub open spec fn at(n: int) -> Option<Color> {
        if 0 <= n < 16 {
            Some(choose|c: Color| c.spec_ordinal() == n)
        } else {
            None
        }
    }

    /// The RGB value of the colour: red in bits 16 to 23, green in bits 8 to
    /// 15, blue in bits 0 to 7.
    pub open spec fn spec_to_hex(self) -> u32 {
        match self {
            Color::White => 0xF9FFFE,
            Color::Orange => 0xF9801D,
            Color::Magenta => 0xC74EBD,
            Color::LightBlue => 0x3AB3DA,
            Color::Yellow => 0xFED83D,
            Color::Lime => 0x80C71F,
            Color::Pink => 0xF38BAA,
            Color::Gray => 0x474F52,
            Color::LightGray => 0x9D9D97,
            Color::Cyan => 0x169C9C,
            Color::Purple => 0x8932B8,
            Color::Blue => 0x3C44AA,
            Color::Brown => 0x835432,
            Color::Green => 0x5E7C16,
            Color::Red => 0xB02E26,
            Color::Black => 0x1D1D21,
        }
    }

    /// The name under which the colour is written out.
    pub open spec fn spec_name(self) -> Seq<char> {
        match self {
            Color::White => "white"@,
            Color::Orange => "orange"@,
            Color::Magenta => "magenta"@,
            Color::LightBlue => "light_blue"@,
            Color::Yellow => "yellow"@,
            Color::Lime => "lime"@,
            Color::Pink => "pink"@,
            Color::Gray => "gray"@,
            Color::LightGray => "light_gray"@,
            Color::Cyan => "cyan"@,
            Color::Purple => "purple"@,
            Color::Blue => "blue"@,
            Color::Brown => "brown"@,
            Color::Green => "green"@,
            Color::Red => "red"@,
            Color::Black => "black"@,
        }
    }

    /// The red, green and blue channels of the colour.
    pub open spec fn spec_to_rgb(self) -> (u8, u8, u8) {
        let hex = self.spec_to_hex();
        ((hex / 0x10000) as u8, (hex / 0x100 % 0x100) as u8, (hex % 0x100) as u8)
    }

    /// Every ordinal lies in the palette's range, no two colours share one,
    /// and each position of the range holds the colour with that ordinal.
    pub proof fn lemma_ordinal(self)
        ensures
            0 <= self.spec_ordinal() <= 15,
            forall|other: Color| other.spec_ordinal() == self.spec_ordinal() ==> other == self,
            Color::at(self.spec_ordinal()) == Some(self),
    {
    }

    /// Each position of the palette holds the colour with that ordinal,
    /// and no other position holds one.
    pub proof fn lemma_at(n: int)
        ensures
            match Color::at(n) {
                Some(x) => 0 <= n < 16 && x.spec_ordinal() == n,
                None => !(0 <= n < 16),
            },
    {
        if n == 0 {
            assert(Color::White.spec_ordinal() == n);
        } else if n == 1 {
            assert(Color::Orange.spec_ordinal() == n);
        } else if n == 2 {
            assert(Color::Magenta.spec_ordinal() == n);
        } else if n == 3 {
            assert(Color::LightBlue.spec_ordinal() == n);
        } else if n == 4 {
            assert(Color::Yellow.spec_ordinal() == n);
        } else if n == 5 {
            assert(Color::Lime.spec_ordinal() == n);
        } else if n == 6 {
            assert(Color::Pink.spec_ordinal() == n);
        } else if n == 7 {
            assert(Color::Gray.spec_ordinal() == n);
        } else if n == 8 {
            assert(Color::LightGray.spec_ordinal() == n);
        } else if n == 9 {
            assert(Color::Cyan.spec_ordinal() == n);
        } else if n == 10 {
            assert(Color::Purple.spec_ordinal() == n);
        } else if n == 11 {
            assert(Color::Blue.spec_ordinal() == n);
        } else if n == 12 {
            assert(Color::Brown.spec_ordinal() == n);
        } else if n == 13 {
            assert(Color::Green.spec_ordinal() == n);
        } else if n == 14 {
            assert(Color::Red.spec_ordinal() == n);
        } else if n == 15 {
            assert(Color::Black.spec_ordinal() == n);
        }
    }

    /// The position of the colour in the palette.
    pub fn ordinal(&self) -> (n: i8)
        ensures
            n == self.spec_ordinal(),
    {
        match self {
            Color::White => 0,
            Color::Orange => 1,
            Color::Magenta => 2,
            Color::LightBlue => 3,
            Color::Yellow => 4,
            Color::Lime => 5,
            Color::Pink => 6,
            Color::Gray => 7,
            Color::LightGray => 8,
            Color::Cyan => 9,
            Color::Purple => 10,
            Color::Blue => 11,
            Color::Brown => 12,
            Color::Green => 13,
            Color::Red => 14,
            Color::Black => 15,
        }
    }

    /// The colour at position `n` of the palette; `None` outside 0 to 15.
    pub fn from_ordinal(n: i8) -> (r: Option<Color>)
        ensures
            r == Color::at(n as int),
            r matches Some(x) ==> x.spec_ordinal() == n,
            r is Some <==> 0 <= n < 16,
    {
        let r = match n {
            0 => Some(Color::White),
            1 => Some(Color::Orange),
            2 => Some(Color::Magenta),
            3 => Some(Color::LightBlue),
            4 => Some(Color::Yellow),
            5 => Some(Color::Lime),
            6 => Some(Color::Pink),
            7 => Some(Color::Gray),
            8 => Some(Color::LightGray),
            9 => Some(Color::Cyan),
            10 => Some(Color::Purple),
            11 => Some(Color::Blue),
            12 => Some(Color::Brown),
            13 => Some(Color::Green),
            14 => Some(Color::Red),
            15 => Some(Color::Black),
            _ => None,
        };
        proof {
            if let Some(c) = r {
                c.lemma_ordinal();
            }
        }
        r
    }

    /// The name under which the colour is written out.
    pub fn name(&self) -> (r: &'static str)
        ensures
            r@ == self.spec_name(),
    {
        match self {
            Color::White => "white",
            Color::Orange => "orange",
            Color::Magenta => "magenta",
            Color::LightBlue => "light_blue",
            Color::Yellow => "yellow",
            Color::Lime => "lime",
            Color::Pink => "pink",
            Color::Gray => "gray",
            Color::LightGray => "light_gray",
            Color::Cyan => "cyan",
            Color::Purple => "purple",
            Color::Blue => "blue",
            Color::Brown => "brown",
            Color::Green => "green",
            Color::Red => "red",
            Color::Black => "black",
        }
    }

    /// The RGB value of the colour as one number.
    pub fn to_hex(&self) -> (hex: u32)
        ensures
            hex == self.spec_to_hex(),
    {
        match self {
            Color::White => 0xF9FFFE,
            Color::Orange => 0xF9801D,
            Color::Magenta => 0xC74EBD,
            Color::LightBlue => 0x3AB3DA,
            Color::Yellow => 0xFED83D,
            Color::Lime => 0x80C71F,
            Color::Pink => 0xF38BAA,
            Color::Gray => 0x474F52,
            Color::LightGray => 0x9D9D97,
            Color::Cyan => 0x169C9C,
            Color::Purple => 0x8932B8,
            Color::Blue => 0x3C44AA,
            Color::Brown => 0x835432,
            Color::Green => 0x5E7C16,
            Color::Red => 0xB02E26,
            Color::Black => 0x1D1D21,
        }
    }

    /// The red, green and blue channels of the colour.
    pub fn to_rgb(&self) -> (rgb: (u8, u8, u8))
        ensures
            rgb == self.spec_to_rgb(),
            self.spec_to_hex() == 0x10000 * rgb.0 + 0x100 * rgb.1 + rgb.2,
    {
        let hex = self.to_hex();
        assert(hex <= 0xFF_FFFF);
        let r = ((hex >> 16) & 0xFF) as u8;
        let g = ((hex >> 8) & 0xFF) as u8;
        let b = (hex & 0xFF) as u8;
        assert((hex >> 16) & 0xFF == hex / 0x10000 && (hex >> 8) & 0xFF == hex / 0x100 % 0x100 && hex
            & 0xFF == hex % 0x100) by (bit_vector)
            requires
                hex <= 0xFF_FFFF,
        ;
        (r, g, b)
    }
}

/// What a slice of a code says as a colour: the colour whose ordinal the
/// slice writes in hexadecimal.
pub open spec fn color_of(s: Seq<char>) -> Result<Color, ParseFailure> {
    match byte_value(s) {
        None => Err(ParseFailure::MalformedDigit),
        Some(n) => match Color::at(n as int) {
            Some(c) => Ok(c),
            None => Err(ParseFailure::InvalidColor(s)),
        },
    }
}

impl Color {
    /// Reads a colour from the hexadecimal text of its ordinal.
    pub fn parse_color(string: &str) -> (r: Result<Color, ParseError>)
        ensures
            match r {
                Ok(c) => color_of(string@) == Ok::<Color, ParseFailure>(c),
                Err(e) => color_of(string@) == Err::<Color, ParseFailure>(e@),
            },
    {
        let color_code = match parse_byte(string) {
            Some(code) => code,
            None => {
                return Err(ParseError::MalformedDigit);
            },
        };
        let found = if color_code > 127 {
            None
        } else {
            Color::from_ordinal(color_code as i8)
        };
        match found {
            Some(color) => Ok(color),
            None => Err(ParseError::InvalidColor(string.to_owned())),
        }
    }
}

} // verus!
