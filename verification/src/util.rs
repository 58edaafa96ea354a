use vstd::prelude::*;
use crate::palette::{PaletteColor, basic_colors, numbered_colors, five_colors};

verus! {

/// `macroquad::rand::gen_range` at `u8`. Its source scales a 32-bit draw of
/// the global generator into `[low, high)` and truncates; for `u8` operands
/// the arithmetic is exact, so the result lies in `[low, high)` when
/// `low < high` and equals `low` when the two are equal. Which value of the
/// range comes out depends on the generator's state and is left unsaid.
#[verifier::external_body]
pub(crate) fn gen_range_u8(low: u8, high: u8) -> (r: u8)
    requires
        low <= high,
    ensures
        low == high ==> r == low,
        low < high ==> low <= r < high,
{
    macroquad::rand::gen_range(low, high)
}

/// The colour at `index` of the palette of `random_color`: red, green, blue,
/// yellow, gray.
pub fn basic_color(index: u8) -> (c: PaletteColor)
    requires
        index < 5,
    ensures
        c == basic_colors()[index as int],
{
    let colors = [
        PaletteColor::Red,
        PaletteColor::Green,
        PaletteColor::Blue,
        PaletteColor::Yellow,
        PaletteColor::Gray,
    ];
    assert(colors@ =~= basic_colors());
    colors[index as usize]
}

/// One of red, green, blue, yellow and gray, drawn at random.
pub fn random_color() -> (c: PaletteColor)
    ensures
        basic_colors().contains(c),
{
    let c = gen_range_u8(0, 5);
    basic_color(c)
}

/// How many colours `random_color_num` chooses among for `num`: `num`
/// itself, cut down to one less than the size of its palette.
pub open spec fn color_choices(num: u8) -> int {
    if num >= numbered_colors().len() {
        numbered_colors().len() - 1
    } else {
        num as int
    }
}

/// The upper end of the draw of `random_color_num` for `num`: `num`, cut
/// down to nine.
pub fn color_num_limit(num: u8) -> (limit: u8)
    ensures
        limit == color_choices(num),
{
    let num_max: usize = 10;
    let mut num = num;
    if num as usize >= num_max {
        num = (num_max - 1) as u8;
    }
    num
}

/// The colour at `index` of the palette of `random_color_num`: red, green,
/// blue, yellow, orange, lime, magenta, pink, violet, sky blue.
pub fn numbered_color(index: u8) -> (c: PaletteColor)
    requires
        index < 10,
    ensures
        c == numbered_colors()[index as int],
{
    let colors = vec![
        PaletteColor::Red,
        PaletteColor::Green,
        PaletteColor::Blue,
        PaletteColor::Yellow,
        PaletteColor::Orange,
        PaletteColor::Lime,
        PaletteColor::Magenta,
        PaletteColor::Pink,
        PaletteColor::Violet,
        PaletteColor::SkyBlue,
    ];
    assert(colors@ =~= numbered_colors());
    colors[index as usize]
}

/// One of the first `num` colours of the ten-colour palette, drawn at random,
/// where `num` is cut down to nine; red when `num` is zero.
pub fn random_color_num(num: u8) -> (c: PaletteColor)
    ensures
        color_choices(num) == 0 ==> c == PaletteColor::Red,
        color_choices(num) > 0 ==> exists|i: int|
            0 <= i < color_choices(num) && #[trigger] numbered_colors()[i] == c,
{
    let limit = color_num_limit(num);
    let c = gen_range_u8(0, limit);
    numbered_color(c)
}

/// The colour at `index` of the palette of `random_color5`: red, blue, green,
/// yellow, white.
pub fn five_color(index: u8) -> (c: PaletteColor)
    requires
        index < 5,
    ensures
        c == five_colors()[index as int],
{
    let colors = [
        PaletteColor::Red,
        PaletteColor::Blue,
        PaletteColor::Green,
        PaletteColor::Yellow,
        PaletteColor::White,
    ];
    assert(colors@ =~= five_colors());
    colors[index as usize]
}

/// One of red, blue, green, yellow and white, drawn at random.
pub fn random_color5() -> (c: PaletteColor)
    ensures
        five_colors().contains(c),
{
    let c = gen_range_u8(0, 5);
    five_color(c)
}

/// The seed of a run started `secs` seconds after the epoch, where `root` is
/// the square root of `secs` as the simulation computes it: `root` times the
/// square of the last two decimal digits of `secs`.
pub fn seed_from_time(secs: u64, root: u64) -> (seed: u64)
    requires
        root * ((secs % 100) * (secs % 100)) <= u64::MAX,
    ensures
        seed == root * ((secs % 100) * (secs % 100)),
{
    let t = secs % 100;
    assert(t * t <= 9801) by (nonlinear_arith)
        requires
            t < 100,
    ;
    let tx = t * t;
    root * tx
}

} // verus!
