use vstd::prelude::*;

verus! {

/// The named colours that objects of the simulation are drawn with.
#[derive(Clone, Copy, Debug, PartialEq, Eq, Hash, Structural)]
pub enum PaletteColor {
    Red,
    Green,
    Blue,
    Yellow,
    Orange,
    Magenta,
    DarkGreen,
    Purple,
    Pink,
    Violet,
    DarkBlue,
    White,
    SkyBlue,
    Lime,
    DarkPurple,
    Brown,
    DarkBrown,
    DarkGray,
    LightGray,
    Gray,
}

/// The colours of the particle types, indexed by type id.
pub open spec fn type_colors() -> Seq<PaletteColor> {
    seq![
        PaletteColor::Red,
        PaletteColor::Green,
        PaletteColor::Blue,
        PaletteColor::Yellow,
        PaletteColor::Orange,
        PaletteColor::Magenta,
        PaletteColor::DarkGreen,
        PaletteColor::Purple,
        PaletteColor::Pink,
        PaletteColor::Violet,
        PaletteColor::DarkBlue,
        PaletteColor::White,
        PaletteColor::SkyBlue,
        PaletteColor::Lime,
        PaletteColor::DarkPurple,
        PaletteColor::Brown,
        PaletteColor::DarkBrown,
        PaletteColor::DarkGray,
        PaletteColor::LightGray,
    ]
}

/// The five basic colours that `random_color` picks from.
pub open spec fn basic_colors() -> Seq<PaletteColor> {
    seq![
        PaletteColor::Red,
        PaletteColor::Green,
        PaletteColor::Blue,
        PaletteColor::Yellow,
        PaletteColor::Gray,
    ]
}

/// The ten colours that `random_color_num` picks from.
pub open spec fn numbered_colors() -> Seq<PaletteColor> {
    seq![
        PaletteColor::Red,
        PaletteColor::Green,
        PaletteColor::Blue,
        PaletteColor::Yellow,
        PaletteColor::Orange,
        PaletteColor::Lime,
        PaletteColor::Magenta,
        PaletteColor::Pink,
        PaletteColor::Violet,
        PaletteColor::SkyBlue,
    ]
}

/// The five colours that `random_color5` picks from.
pub open spec fn five_colors() -> Seq<PaletteColor> {
    seq![
        PaletteColor::Red,
        PaletteColor::Blue,
        PaletteColor::Green,
        PaletteColor::Yellow,
        PaletteColor::White,
    ]
}

/// The colours of the particle types, in type-id order.
pub fn type_color_list() -> (v: Vec<PaletteColor>)
    ensures
        v@ == type_colors(),
{
    let v = vec![
        PaletteColor::Red,
        PaletteColor::Green,
        PaletteColor::Blue,
        PaletteColor::Yellow,
        PaletteColor::Orange,
        PaletteColor::Magenta,
        PaletteColor::DarkGreen,
        PaletteColor::Purple,
        PaletteColor::Pink,
        PaletteColor::Violet,
        PaletteColor::DarkBlue,
        PaletteColor::White,
        PaletteColor::SkyBlue,
        PaletteColor::Lime,
        PaletteColor::DarkPurple,
        PaletteColor::Brown,
        PaletteColor::DarkBrown,
        PaletteColor::DarkGray,
        PaletteColor::LightGray,
    ];
    assert(v@ =~= type_colors());
    v
}

} // verus!

verus! {

/// The type palette holds nineteen colours: type 0 is red, 1 green, 2 blue,
/// 3 yellow, 4 orange, 5 magenta, 6 dark green, 7 purple, 8 pink, 9 violet,
/// 10 dark blue, 11 white, 12 sky blue, 13 lime, 14 dark purple, 15 brown,
/// 16 dark brown, 17 dark gray and 18 light gray; no two types share one.
pub proof fn law_type_palette()
    ensures
        type_colors().len() == 19,
        type_colors()[0] == PaletteColor::Red,
        type_colors()[1] == PaletteColor::Green,
        type_colors()[2] == PaletteColor::Blue,
        type_colors()[3] == PaletteColor::Yellow,
        type_colors()[4] == PaletteColor::Orange,
        type_colors()[5] == PaletteColor::Magenta,
        type_colors()[6] == PaletteColor::DarkGreen,
        type_colors()[7] == PaletteColor::Purple,
        type_colors()[8] == PaletteColor::Pink,
        type_colors()[9] == PaletteColor::Violet,
        type_colors()[10] == PaletteColor::DarkBlue,
        type_colors()[11] == PaletteColor::White,
        type_colors()[12] == PaletteColor::SkyBlue,
        type_colors()[13] == PaletteColor::Lime,
        type_colors()[14] == PaletteColor::DarkPurple,
        type_colors()[15] == PaletteColor::Brown,
        type_colors()[16] == PaletteColor::DarkBrown,
        type_colors()[17] == PaletteColor::DarkGray,
        type_colors()[18] == PaletteColor::LightGray,
        type_colors().no_duplicates(),
{
}

/// `random_color` draws from five different colours: red, green, blue,
/// yellow and gray, in that order.
pub proof fn law_basic_palette()
    ensures
        basic_colors().len() == 5,
        basic_colors()[0] == PaletteColor::Red,
        basic_colors()[1] == PaletteColor::Green,
        basic_colors()[2] == PaletteColor::Blue,
        basic_colors()[3] == PaletteColor::Yellow,
        basic_colors()[4] == PaletteColor::Gray,
        basic_colors().no_duplicates(),
{
}

/// `random_color_num` draws from the front of ten different colours: red,
/// green, blue, yellow, orange, lime, magenta, pink, violet and sky blue.
pub proof fn law_numbered_palette()
    ensures
        numbered_colors().len() == 10,
        numbered_colors()[0] == PaletteColor::Red,
        numbered_colors()[1] == PaletteColor::Green,
        numbered_colors()[2] == PaletteColor::Blue,
        numbered_colors()[3] == PaletteColor::Yellow,
        numbered_colors()[4] == PaletteColor::Orange,
        numbered_colors()[5] == PaletteColor::Lime,
        numbered_colors()[6] == PaletteColor::Magenta,
        numbered_colors()[7] == PaletteColor::Pink,
        numbered_colors()[8] == PaletteColor::Violet,
        numbered_colors()[9] == PaletteColor::SkyBlue,
        numbered_colors().no_duplicates(),
{
}

/// `random_color5` draws from five different colours: red, blue, green,
/// yellow and white, in that order, so each of them can come out.
pub proof fn law_five_palette()
    ensures
        five_colors().len() == 5,
        five_colors()[0] == PaletteColor::Red,
        five_colors()[1] == PaletteColor::Blue,
        five_colors()[2] == PaletteColor::Green,
        five_colors()[3] == PaletteColor::Yellow,
        five_colors()[4] == PaletteColor::White,
        five_colors().no_duplicates(),
{
}

} // verus!
