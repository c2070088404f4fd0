//! Named color constants of the expression language.
use vstd::prelude::*;

verus! {

/// Named color constants of the expression language.
#[derive(Debug, Clone, Copy, PartialEq, Eq, Hash, Structural)]
pub enum ColorConstant {
    /// `tsBlack`.
    Black,
    /// `tsWhite`.
    White,
    /// `tsRed`.
    Red,
    /// `tsGreen`.
    Green,
    /// `tsBlue`.
    Blue,
    /// `tsYellow`.
    Yellow,
    /// `tsCyan`.
    Cyan,
    /// `tsMagenta`.
    Magenta,
    /// `tsGray`.
    Gray,
    /// `tsDarkRed`.
    DarkRed,
    /// `tsDarkGreen`.
    DarkGreen,
    /// `tsDarkBlue`.
    DarkBlue,
    /// `tsDarkYellow`.
    DarkYellow,
    /// `tsDarkCyan`.
    DarkCyan,
    /// `tsDarkMagenta`.
    DarkMagenta,
    /// `tsLightGray`.
    LightGray,
    /// `tsDarkGray`.
    DarkGray,
}

impl ColorConstant {
    /// Every value in this family.
    pub const ALL: [ColorConstant; 17] = [
        ColorConstant::Black,
        ColorConstant::White,
        ColorConstant::Red,
        ColorConstant::Green,
        ColorConstant::Blue,
        ColorConstant::Yellow,
        ColorConstant::Cyan,
        ColorConstant::Magenta,
        ColorConstant::Gray,
        ColorConstant::DarkRed,
        ColorConstant::DarkGreen,
        ColorConstant::DarkBlue,
        ColorConstant::DarkYellow,
        ColorConstant::DarkCyan,
        ColorConstant::DarkMagenta,
        ColorConstant::LightGray,
        ColorConstant::DarkGray,
    ];

    /// How the constant is written in an expression.
    pub open spec fn spelling(self) -> Seq<char> {
        match self {
            ColorConstant::Black => "tsBlack"@,
            ColorConstant::White => "tsWhite"@,
            ColorConstant::Red => "tsRed"@,
            ColorConstant::Green => "tsGreen"@,
            ColorConstant::Blue => "tsBlue"@,
            ColorConstant::Yellow => "tsYellow"@,
            ColorConstant::Cyan => "tsCyan"@,
            ColorConstant::Magenta => "tsMagenta"@,
            ColorConstant::Gray => "tsGray"@,
            ColorConstant::DarkRed => "tsDarkRed"@,
            ColorConstant::DarkGreen => "tsDarkGreen"@,
            ColorConstant::DarkBlue => "tsDarkBlue"@,
            ColorConstant::DarkYellow => "tsDarkYellow"@,
            ColorConstant::DarkCyan => "tsDarkCyan"@,
            ColorConstant::DarkMagenta => "tsDarkMagenta"@,
            ColorConstant::LightGray => "tsLightGray"@,
            ColorConstant::DarkGray => "tsDarkGray"@,
        }
    }

    /// The name as written in an expression.
    pub fn name(self) -> (name: &'static str)
        ensures
            name@ == self.spelling(),
    {
        match self {
            ColorConstant::Black => "tsBlack",
            ColorConstant::White => "tsWhite",
            ColorConstant::Red => "tsRed",
            ColorConstant::Green => "tsGreen",
            ColorConstant::Blue => "tsBlue",
            ColorConstant::Yellow => "tsYellow",
            ColorConstant::Cyan => "tsCyan",
            ColorConstant::Magenta => "tsMagenta",
            ColorConstant::Gray => "tsGray",
            ColorConstant::DarkRed => "tsDarkRed",
            ColorConstant::DarkGreen => "tsDarkGreen",
            ColorConstant::DarkBlue => "tsDarkBlue",
            ColorConstant::DarkYellow => "tsDarkYellow",
            ColorConstant::DarkCyan => "tsDarkCyan",
            ColorConstant::DarkMagenta => "tsDarkMagenta",
            ColorConstant::LightGray => "tsLightGray",
            ColorConstant::DarkGray => "tsDarkGray",
        }
    }

    /// The value the engine yields for this constant, little-endian
    /// `0x00BBGGRR`.
    pub open spec fn color(self) -> u32 {
        match self {
            ColorConstant::Black => 0x0000_0000,
            ColorConstant::White => 0x00ff_ffff,
            ColorConstant::Red => 0x0000_00ff,
            ColorConstant::Green => 0x0000_ff00,
            ColorConstant::Blue => 0x00ff_0000,
            ColorConstant::Yellow => 0x0000_ffff,
            ColorConstant::Cyan => 0x00ff_ff00,
            ColorConstant::Magenta => 0x00ff_00ff,
            ColorConstant::Gray => 0x00a0_a0a0,
            ColorConstant::DarkRed => 0x0000_0080,
            ColorConstant::DarkGreen => 0x0000_8000,
            ColorConstant::DarkBlue => 0x0080_0000,
            ColorConstant::DarkYellow => 0x0000_8080,
            ColorConstant::DarkCyan => 0x0080_8000,
            ColorConstant::DarkMagenta => 0x0080_0080,
            ColorConstant::LightGray => 0x00c0_c0c0,
            ColorConstant::DarkGray => 0x0080_8080,
        }
    }

    /// The value the engine yields for this constant.
    ///
    /// Little-endian `0x00BBGGRR`: `Red` is `0x0000FF` and `Blue` is
    /// `0x00FF0000`.
    pub fn value(self) -> (value: u32)
        ensures
            value == self.color(),
    {
        match self {
            ColorConstant::Black => 0x0000_0000,
            ColorConstant::White => 0x00ff_ffff,
            ColorConstant::Red => 0x0000_00ff,
            ColorConstant::Green => 0x0000_ff00,
            ColorConstant::Blue => 0x00ff_0000,
            ColorConstant::Yellow => 0x0000_ffff,
            ColorConstant::Cyan => 0x00ff_ff00,
            ColorConstant::Magenta => 0x00ff_00ff,
            ColorConstant::Gray => 0x00a0_a0a0,
            ColorConstant::DarkRed => 0x0000_0080,
            ColorConstant::DarkGreen => 0x0000_8000,
            ColorConstant::DarkBlue => 0x0080_0000,
            ColorConstant::DarkYellow => 0x0000_8080,
            ColorConstant::DarkCyan => 0x0080_8000,
            ColorConstant::DarkMagenta => 0x0080_0080,
            ColorConstant::LightGray => 0x00c0_c0c0,
            ColorConstant::DarkGray => 0x0080_8080,
        }
    }
}

/// The length of each spelling, and the characters that tell apart
/// spellings of equal length.
pub(crate) proof fn lemma_spelling_facts(item: ColorConstant)
    ensures
        item.spelling().len() == match item {
            ColorConstant::Black => 7nat,
            ColorConstant::White => 7nat,
            ColorConstant::Red => 5nat,
            ColorConstant::Green => 7nat,
            ColorConstant::Blue => 6nat,
            ColorConstant::Yellow => 8nat,
            ColorConstant::Cyan => 6nat,
            ColorConstant::Magenta => 9nat,
            ColorConstant::Gray => 6nat,
            ColorConstant::DarkRed => 9nat,
            ColorConstant::DarkGreen => 11nat,
            ColorConstant::DarkBlue => 10nat,
            ColorConstant::DarkYellow => 12nat,
            ColorConstant::DarkCyan => 10nat,
            ColorConstant::DarkMagenta => 13nat,
            ColorConstant::LightGray => 11nat,
            ColorConstant::DarkGray => 10nat,
        },
        item.spelling().len() > 0 ==> item.spelling()[0] == match item {
            ColorConstant::Black => 't',
            ColorConstant::White => 't',
            ColorConstant::Red => 't',
            ColorConstant::Green => 't',
            ColorConstant::Blue => 't',
            ColorConstant::Yellow => 't',
            ColorConstant::Cyan => 't',
            ColorConstant::Magenta => 't',
            ColorConstant::Gray => 't',
            ColorConstant::DarkRed => 't',
            ColorConstant::DarkGreen => 't',
            ColorConstant::DarkBlue => 't',
            ColorConstant::DarkYellow => 't',
            ColorConstant::DarkCyan => 't',
            ColorConstant::DarkMagenta => 't',
            ColorConstant::LightGray => 't',
            ColorConstant::DarkGray => 't',
        },
        item.spelling().len() > 1 ==> item.spelling()[1] == match item {
            ColorConstant::Black => 's',
            ColorConstant::White => 's',
            ColorConstant::Red => 's',
            ColorConstant::Green => 's',
            ColorConstant::Blue => 's',
            ColorConstant::Yellow => 's',
            ColorConstant::Cyan => 's',
            ColorConstant::Magenta => 's',
            ColorConstant::Gray => 's',
            ColorConstant::DarkRed => 's',
            ColorConstant::DarkGreen => 's',
            ColorConstant::DarkBlue => 's',
            ColorConstant::DarkYellow => 's',
            ColorConstant::DarkCyan => 's',
            ColorConstant::DarkMagenta => 's',
            ColorConstant::LightGray => 's',
            ColorConstant::DarkGray => 's',
        },
        item.spelling().len() > 2 ==> item.spelling()[2] == match item {
            ColorConstant::Black => 'B',
            ColorConstant::White => 'W',
            ColorConstant::Red => 'R',
            ColorConstant::Green => 'G',
            ColorConstant::Blue => 'B',
            ColorConstant::Yellow => 'Y',
            ColorConstant::Cyan => 'C',
            ColorConstant::Magenta => 'M',
            ColorConstant::Gray => 'G',
            ColorConstant::DarkRed => 'D',
            ColorConstant::DarkGreen => 'D',
            ColorConstant::DarkBlue => 'D',
            ColorConstant::DarkYellow => 'D',
            ColorConstant::DarkCyan => 'D',
            ColorConstant::DarkMagenta => 'D',
            ColorConstant::LightGray => 'L',
            ColorConstant::DarkGray => 'D',
        },
        item.spelling().len() > 6 ==> item.spelling()[6] == match item {
            ColorConstant::Black => 'k',
            ColorConstant::White => 'e',
            ColorConstant::Red => ' ',
            ColorConstant::Green => 'n',
            ColorConstant::Blue => ' ',
            ColorConstant::Yellow => 'o',
            ColorConstant::Cyan => ' ',
            ColorConstant::Magenta => 'n',
            ColorConstant::Gray => ' ',
            ColorConstant::DarkRed => 'R',
            ColorConstant::DarkGreen => 'G',
            ColorConstant::DarkBlue => 'B',
            ColorConstant::DarkYellow => 'Y',
            ColorConstant::DarkCyan => 'C',
            ColorConstant::DarkMagenta => 'M',
            ColorConstant::LightGray => 't',
            ColorConstant::DarkGray => 'G',
        },
{
    match item {
        ColorConstant::Black => reveal_strlit("tsBlack"),
        ColorConstant::White => reveal_strlit("tsWhite"),
        ColorConstant::Red => reveal_strlit("tsRed"),
        ColorConstant::Green => reveal_strlit("tsGreen"),
        ColorConstant::Blue => reveal_strlit("tsBlue"),
        ColorConstant::Yellow => reveal_strlit("tsYellow"),
        ColorConstant::Cyan => reveal_strlit("tsCyan"),
        ColorConstant::Magenta => reveal_strlit("tsMagenta"),
        ColorConstant::Gray => reveal_strlit("tsGray"),
        ColorConstant::DarkRed => reveal_strlit("tsDarkRed"),
        ColorConstant::DarkGreen => reveal_strlit("tsDarkGreen"),
        ColorConstant::DarkBlue => reveal_strlit("tsDarkBlue"),
        ColorConstant::DarkYellow => reveal_strlit("tsDarkYellow"),
        ColorConstant::DarkCyan => reveal_strlit("tsDarkCyan"),
        ColorConstant::DarkMagenta => reveal_strlit("tsDarkMagenta"),
        ColorConstant::LightGray => reveal_strlit("tsLightGray"),
        ColorConstant::DarkGray => reveal_strlit("tsDarkGray"),
    }
}

/// No two members of the family share a spelling.
pub proof fn lemma_spelling_distinct(a: ColorConstant, b: ColorConstant)
    requires
        a.spelling() == b.spelling(),
    ensures
        a == b,
{
    lemma_spelling_facts(a);
    lemma_spelling_facts(b);
}

/// Every color name carries the engine's `ts` prefix.
pub proof fn lemma_names_carry_the_engine_prefix(color: ColorConstant)
    ensures
        color.spelling().len() >= 2,
        color.spelling()[0] == 't',
        color.spelling()[1] == 's',
{
    lemma_spelling_facts(color);
}

/// Every color fits in the low three bytes, one byte per channel.
pub proof fn lemma_values_fit_three_bytes(color: ColorConstant)
    ensures
        color.color() <= 0x00ff_ffff,
{
}

/// The value `0x00BBGGRR` holding the given red, green and blue channels.
pub open spec fn rgb(red: int, green: int, blue: int) -> int {
    red + green * 0x100 + blue * 0x1_0000
}

/// Each colour's value holds the channels its name describes, red in the
/// lowest byte and blue in the third: a primary is full in its own channel
/// only, yellow is red and green, cyan green and blue, magenta red and blue,
/// white all three; a dark colour holds half intensity (`0x80`) where its
/// bright one is full; grays hold one level in all three channels, light
/// gray above gray above dark gray.
pub proof fn lemma_colors_hold_their_channels(c: ColorConstant)
    ensures
        c.color() == rgb(
            match c {
                ColorConstant::Red | ColorConstant::Yellow | ColorConstant::Magenta
                | ColorConstant::White => 0xff,
                ColorConstant::DarkRed | ColorConstant::DarkYellow | ColorConstant::DarkMagenta
                | ColorConstant::DarkGray => 0x80,
                ColorConstant::Gray => 0xa0,
                ColorConstant::LightGray => 0xc0,
                _ => 0,
            },
            match c {
                ColorConstant::Green | ColorConstant::Yellow | ColorConstant::Cyan
                | ColorConstant::White => 0xff,
                ColorConstant::DarkGreen | ColorConstant::DarkYellow | ColorConstant::DarkCyan
                | ColorConstant::DarkGray => 0x80,
                ColorConstant::Gray => 0xa0,
                ColorConstant::LightGray => 0xc0,
                _ => 0,
            },
            match c {
                ColorConstant::Blue | ColorConstant::Cyan | ColorConstant::Magenta
                | ColorConstant::White => 0xff,
                ColorConstant::DarkBlue | ColorConstant::DarkCyan | ColorConstant::DarkMagenta
                | ColorConstant::DarkGray => 0x80,
                ColorConstant::Gray => 0xa0,
                ColorConstant::LightGray => 0xc0,
                _ => 0,
            },
        ),
{
}

/// The mixed colours are the sums of the primaries they mix, bright and dark
/// alike, and black holds nothing.
pub proof fn lemma_mixed_colors_sum_their_primaries()
    ensures
        ColorConstant::Black.color() == 0,
        ColorConstant::Yellow.color() == ColorConstant::Red.color() + ColorConstant::Green.color(),
        ColorConstant::Cyan.color() == ColorConstant::Green.color() + ColorConstant::Blue.color(),
        ColorConstant::Magenta.color() == ColorConstant::Red.color() + ColorConstant::Blue.color(),
        ColorConstant::White.color() == ColorConstant::Red.color() + ColorConstant::Green.color()
            + ColorConstant::Blue.color(),
        ColorConstant::DarkYellow.color() == ColorConstant::DarkRed.color()
            + ColorConstant::DarkGreen.color(),
        ColorConstant::DarkCyan.color() == ColorConstant::DarkGreen.color()
            + ColorConstant::DarkBlue.color(),
        ColorConstant::DarkMagenta.color() == ColorConstant::DarkRed.color()
            + ColorConstant::DarkBlue.color(),
{
}

} // verus!
