//! The colour pairs of the display and the reduction of colours onto them.

use vstd::prelude::*;

verus! {

/// The eight colours of the display, by their conventional numbers.
pub const COLOR_BLACK: i16 = 0;

pub const COLOR_RED: i16 = 1;

pub const COLOR_GREEN: i16 = 2;

pub const COLOR_YELLOW: i16 = 3;

pub const COLOR_BLUE: i16 = 4;

pub const COLOR_MAGENTA: i16 = 5;

pub const COLOR_CYAN: i16 = 6;

pub const COLOR_WHITE: i16 = 7;

/// The number of slots in the table of colour pairs.
pub const PAIR_SLOTS: usize = 8;

/// The table of colour pairs as a sequence: slot `i` holds the foreground
/// colour of pair `i`. Every pair has a black background. The last slot is
/// never registered and never handed out.
pub open spec fn pair_table() -> Seq<i16> {
    seq![
        COLOR_WHITE,
        COLOR_RED,
        COLOR_GREEN,
        COLOR_BLUE,
        COLOR_CYAN,
        COLOR_MAGENTA,
        COLOR_YELLOW,
        COLOR_BLACK,
    ]
}

/// The table of colour pairs, as an array.
pub fn colour_indexes() -> (table: [i16; 8])
    ensures
        table@ == pair_table(),
{
    let table: [i16; 8] = [
        COLOR_WHITE,
        COLOR_RED,
        COLOR_GREEN,
        COLOR_BLUE,
        COLOR_CYAN,
        COLOR_MAGENTA,
        COLOR_YELLOW,
        COLOR_BLACK,
    ];
    assert(table@ =~= pair_table());
    table
}

/// The pair that a colour is drawn with: the slot among 1 to 6 that holds
/// the colour, and 0, the pair without special styling, for every other
/// colour.
pub open spec fn pair_index_of(c: i16) -> nat {
    if c == COLOR_RED {
        1
    } else if c == COLOR_GREEN {
        2
    } else if c == COLOR_BLUE {
        3
    } else if c == COLOR_CYAN {
        4
    } else if c == COLOR_MAGENTA {
        5
    } else if c == COLOR_YELLOW {
        6
    } else {
        0
    }
}

/// Searches the table of colour pairs for a colour and returns the slot
/// that holds it, or 0 where no searched slot does.
pub fn get_colour_index(c: i16) -> (index: usize)
    ensures
        index == pair_index_of(c),
        index < PAIR_SLOTS - 1,
        index > 0 ==> pair_table()[index as int] == c,
        index == 0 ==> forall|i: int| 1 <= i < PAIR_SLOTS - 1 ==> pair_table()[i] != c,
{
    let table = colour_indexes();
    let mut i: usize = 1;
    while i < PAIR_SLOTS - 1
        invariant
            1 <= i <= PAIR_SLOTS - 1,
            table@ == pair_table(),
            forall|j: int| 1 <= j < i ==> pair_table()[j] != c,
        decreases PAIR_SLOTS - 1 - i,
    {
        if c == table[i] {
            return i;
        }
        i += 1;
    }
    0
}

/// The colours that a terminal names: the eight base colours, their bright
/// and dim variants, and the roles (foreground, background, cursor) that a
/// colour scheme fills in.
#[derive(Clone, Copy, Debug, PartialEq, Eq, Structural)]
pub enum NamedColour {
    Background,
    Black,
    Blue,
    BrightBlack,
    BrightBlue,
    BrightCyan,
    BrightForeground,
    BrightGreen,
    BrightMagenta,
    BrightRed,
    BrightWhite,
    BrightYellow,
    Cursor,
    CursorText,
    Cyan,
    DimBlack,
    DimBlue,
    DimCyan,
    DimForeground,
    DimGreen,
    DimMagenta,
    DimRed,
    DimWhite,
    DimYellow,
    Foreground,
    Green,
    Magenta,
    Red,
    White,
    Yellow,
}

/// The colour of the display that a named colour is drawn in: a bright or
/// dim variant collapses onto its base colour, the foreground roles onto
/// white, the background and the cursor onto black.
pub open spec fn base_colour_of(name: NamedColour) -> i16 {
    match name {
        NamedColour::Background => COLOR_BLACK,
        NamedColour::Black => COLOR_BLACK,
        NamedColour::Blue => COLOR_BLUE,
        NamedColour::BrightBlack => COLOR_BLACK,
        NamedColour::BrightBlue => COLOR_BLUE,
        NamedColour::BrightCyan => COLOR_CYAN,
        NamedColour::BrightForeground => COLOR_WHITE,
        NamedColour::BrightGreen => COLOR_GREEN,
        NamedColour::BrightMagenta => COLOR_MAGENTA,
        NamedColour::BrightRed => COLOR_RED,
        NamedColour::BrightWhite => COLOR_WHITE,
        NamedColour::BrightYellow => COLOR_YELLOW,
        NamedColour::Cursor => COLOR_BLACK,
        NamedColour::CursorText => COLOR_WHITE,
        NamedColour::Cyan => COLOR_CYAN,
        NamedColour::DimBlack => COLOR_BLACK,
        NamedColour::DimBlue => COLOR_BLUE,
        NamedColour::DimCyan => COLOR_CYAN,
        NamedColour::DimForeground => COLOR_WHITE,
        NamedColour::DimGreen => COLOR_GREEN,
        NamedColour::DimMagenta => COLOR_MAGENTA,
        NamedColour::DimRed => COLOR_RED,
        NamedColour::DimWhite => COLOR_WHITE,
        NamedColour::DimYellow => COLOR_YELLOW,
        NamedColour::Foreground => COLOR_WHITE,
        NamedColour::Green => COLOR_GREEN,
        NamedColour::Magenta => COLOR_MAGENTA,
        NamedColour::Red => COLOR_RED,
        NamedColour::White => COLOR_WHITE,
        NamedColour::Yellow => COLOR_YELLOW,
    }
}

/// The pair that a named colour is drawn with.
pub open spec fn pair_of(name: NamedColour) -> nat {
    pair_index_of(base_colour_of(name))
}

/// Collapses a named colour onto one of the eight colours of the display.
pub fn base_colour(name: NamedColour) -> (c: i16)
    ensures
        c == base_colour_of(name),
        COLOR_BLACK <= c <= COLOR_WHITE,
{
    match name {
        NamedColour::Background => COLOR_BLACK,
        NamedColour::Black => COLOR_BLACK,
        NamedColour::Blue => COLOR_BLUE,
        NamedColour::BrightBlack => COLOR_BLACK,
        NamedColour::BrightBlue => COLOR_BLUE,
        NamedColour::BrightCyan => COLOR_CYAN,
        NamedColour::BrightForeground => COLOR_WHITE,
        NamedColour::BrightGreen => COLOR_GREEN,
        NamedColour::BrightMagenta => COLOR_MAGENTA,
        NamedColour::BrightRed => COLOR_RED,
        NamedColour::BrightWhite => COLOR_WHITE,
        NamedColour::BrightYellow => COLOR_YELLOW,
        NamedColour::Cursor => COLOR_BLACK,
        NamedColour::CursorText => COLOR_WHITE,
        NamedColour::Cyan => COLOR_CYAN,
        NamedColour::DimBlack => COLOR_BLACK,
        NamedColour::DimBlue => COLOR_BLUE,
        NamedColour::DimCyan => COLOR_CYAN,
        NamedColour::DimForeground => COLOR_WHITE,
        NamedColour::DimGreen => COLOR_GREEN,
        NamedColour::DimMagenta => COLOR_MAGENTA,
        NamedColour::DimRed => COLOR_RED,
        NamedColour::DimWhite => COLOR_WHITE,
        NamedColour::DimYellow => COLOR_YELLOW,
        NamedColour::Foreground => COLOR_WHITE,
        NamedColour::Green => COLOR_GREEN,
        NamedColour::Magenta => COLOR_MAGENTA,
        NamedColour::Red => COLOR_RED,
        NamedColour::White => COLOR_WHITE,
        NamedColour::Yellow => COLOR_YELLOW,
    }
}

/// Reduces a named colour to the colour pair that it is drawn with. The
/// result is a function of the colour alone, so every call on one colour
/// gives one pair.
pub fn reduce(name: NamedColour) -> (pair: u8)
    ensures
        pair == pair_of(name),
        pair < PAIR_SLOTS - 1,
        pair > 0 ==> pair_table()[pair as int] == base_colour_of(name),
        pair == 0 <==> (base_colour_of(name) == COLOR_WHITE || base_colour_of(name) == COLOR_BLACK),
{
    let index = get_colour_index(base_colour(name));
    index as u8
}

/// The colours that are drawn with pair 0, the pair without special
/// styling, are those that collapse onto white or onto black; no other
/// colour is.
pub proof fn lemma_default_pair(name: NamedColour)
    ensures
        pair_of(name) == 0 <==> (base_colour_of(name) == COLOR_WHITE || base_colour_of(name)
            == COLOR_BLACK),
        pair_of(name) < PAIR_SLOTS - 1,
        pair_of(name) > 0 ==> pair_table()[pair_of(name) as int] == base_colour_of(name),
{
}

} // verus!
