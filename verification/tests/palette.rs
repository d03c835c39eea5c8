use ptyview::palette::{
    base_colour, colour_indexes, get_colour_index, reduce, NamedColour, COLOR_BLACK, COLOR_BLUE,
    COLOR_CYAN, COLOR_GREEN, COLOR_MAGENTA, COLOR_RED, COLOR_WHITE, COLOR_YELLOW, PAIR_SLOTS,
};

const ALL_NAMES: [NamedColour; 30] = [
    NamedColour::Background,
    NamedColour::Black,
    NamedColour::Blue,
    NamedColour::BrightBlack,
    NamedColour::BrightBlue,
    NamedColour::BrightCyan,
    NamedColour::BrightForeground,
    NamedColour::BrightGreen,
    NamedColour::BrightMagenta,
    NamedColour::BrightRed,
    NamedColour::BrightWhite,
    NamedColour::BrightYellow,
    NamedColour::Cursor,
    NamedColour::CursorText,
    NamedColour::Cyan,
    NamedColour::DimBlack,
    NamedColour::DimBlue,
    NamedColour::DimCyan,
    NamedColour::DimForeground,
    NamedColour::DimGreen,
    NamedColour::DimMagenta,
    NamedColour::DimRed,
    NamedColour::DimWhite,
    NamedColour::DimYellow,
    NamedColour::Foreground,
    NamedColour::Green,
    NamedColour::Magenta,
    NamedColour::Red,
    NamedColour::White,
    NamedColour::Yellow,
];

#[test]
fn pair_table_lists_white_first_and_black_last() {
    let table = colour_indexes();
    assert_eq!(table.len(), PAIR_SLOTS);
    assert_eq!(
        table,
        [
            COLOR_WHITE,
            COLOR_RED,
            COLOR_GREEN,
            COLOR_BLUE,
            COLOR_CYAN,
            COLOR_MAGENTA,
            COLOR_YELLOW,
            COLOR_BLACK
        ]
    );
}

#[test]
fn colour_index_of_each_display_colour() {
    assert_eq!(get_colour_index(COLOR_WHITE), 0);
    assert_eq!(get_colour_index(COLOR_RED), 1);
    assert_eq!(get_colour_index(COLOR_GREEN), 2);
    assert_eq!(get_colour_index(COLOR_BLUE), 3);
    assert_eq!(get_colour_index(COLOR_CYAN), 4);
    assert_eq!(get_colour_index(COLOR_MAGENTA), 5);
    assert_eq!(get_colour_index(COLOR_YELLOW), 6);
}

#[test]
fn colour_index_of_black_is_the_default() {
    assert_eq!(get_colour_index(COLOR_BLACK), 0);
}

#[test]
fn colour_index_of_an_unknown_colour_is_the_default() {
    assert_eq!(get_colour_index(8), 0);
    assert_eq!(get_colour_index(-1), 0);
    assert_eq!(get_colour_index(i16::MAX), 0);
    assert_eq!(get_colour_index(i16::MIN), 0);
}

#[test]
fn colour_index_names_the_slot_that_holds_the_colour() {
    let table = colour_indexes();
    for c in -3i16..12 {
        let index = get_colour_index(c);
        assert!(index < PAIR_SLOTS - 1);
        if index > 0 {
            assert_eq!(table[index], c);
        } else {
            for slot in 1..PAIR_SLOTS - 1 {
                assert_ne!(table[slot], c);
            }
        }
    }
}

#[test]
fn base_colours_of_the_variants() {
    assert_eq!(base_colour(NamedColour::Red), COLOR_RED);
    assert_eq!(base_colour(NamedColour::BrightRed), COLOR_RED);
    assert_eq!(base_colour(NamedColour::DimRed), COLOR_RED);
    assert_eq!(base_colour(NamedColour::DimYellow), COLOR_YELLOW);
    assert_eq!(base_colour(NamedColour::BrightCyan), COLOR_CYAN);
    assert_eq!(base_colour(NamedColour::Foreground), COLOR_WHITE);
    assert_eq!(base_colour(NamedColour::CursorText), COLOR_WHITE);
    assert_eq!(base_colour(NamedColour::Background), COLOR_BLACK);
    assert_eq!(base_colour(NamedColour::Cursor), COLOR_BLACK);
}

#[test]
fn reduce_gives_each_colour_its_pair() {
    assert_eq!(reduce(NamedColour::Red), 1);
    assert_eq!(reduce(NamedColour::BrightRed), 1);
    assert_eq!(reduce(NamedColour::DimRed), 1);
    assert_eq!(reduce(NamedColour::Green), 2);
    assert_eq!(reduce(NamedColour::BrightGreen), 2);
    assert_eq!(reduce(NamedColour::DimGreen), 2);
    assert_eq!(reduce(NamedColour::Blue), 3);
    assert_eq!(reduce(NamedColour::BrightBlue), 3);
    assert_eq!(reduce(NamedColour::DimBlue), 3);
    assert_eq!(reduce(NamedColour::Cyan), 4);
    assert_eq!(reduce(NamedColour::BrightCyan), 4);
    assert_eq!(reduce(NamedColour::DimCyan), 4);
    assert_eq!(reduce(NamedColour::Magenta), 5);
    assert_eq!(reduce(NamedColour::BrightMagenta), 5);
    assert_eq!(reduce(NamedColour::DimMagenta), 5);
    assert_eq!(reduce(NamedColour::Yellow), 6);
    assert_eq!(reduce(NamedColour::BrightYellow), 6);
    assert_eq!(reduce(NamedColour::DimYellow), 6);
}

#[test]
fn reduce_collapses_white_black_and_the_roles_onto_the_default() {
    let collapsed = [
        NamedColour::White,
        NamedColour::BrightWhite,
        NamedColour::DimWhite,
        NamedColour::Black,
        NamedColour::BrightBlack,
        NamedColour::DimBlack,
        NamedColour::Foreground,
        NamedColour::BrightForeground,
        NamedColour::DimForeground,
        NamedColour::Background,
        NamedColour::Cursor,
        NamedColour::CursorText,
    ];
    for name in collapsed {
        assert_eq!(reduce(name), 0);
    }
}

#[test]
fn reduce_gives_the_same_pair_on_every_call() {
    for name in ALL_NAMES {
        let first = reduce(name);
        for _ in 0..3 {
            assert_eq!(reduce(name), first);
        }
        assert!((first as usize) < PAIR_SLOTS - 1);
        assert_eq!(first as usize, get_colour_index(base_colour(name)));
    }
}
