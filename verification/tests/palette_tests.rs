use madlab::globals::TYPES_NUM;
use madlab::palette::{type_color_list, PaletteColor};
use madlab::physics_types::{fixed_action, ParticleTypes};
use madlab::ui::{collisions_entry, repel_entry, MenuColor};
use madlab::util::{
    basic_color, color_num_limit, five_color, numbered_color, random_color, random_color5,
    random_color_num, seed_from_time,
};
use std::collections::HashSet;

#[test]
fn type_table_pairs_ids_with_palette() {
    let types = ParticleTypes::new();
    let colors = type_color_list();
    assert_eq!(colors.len(), TYPES_NUM);
    for id in 0..TYPES_NUM {
        let t = types.get_type(id as u128);
        assert_eq!(t.type_id, id as u128);
        assert_eq!(t.color, colors[id]);
    }
    assert_eq!(types.get_type(5).color, PaletteColor::Magenta);
}

#[test]
fn type_colors_are_distinct() {
    let colors = type_color_list();
    let set: HashSet<PaletteColor> = colors.iter().copied().collect();
    assert_eq!(set.len(), TYPES_NUM);
}

#[test]
fn only_last_type_towards_itself_is_fixed() {
    assert!(fixed_action(18, 18));
    assert!(!fixed_action(18, 17));
    assert!(!fixed_action(17, 18));
    assert!(!fixed_action(0, 0));
}

#[test]
fn random_color_from_basic_palette() {
    macroquad::rand::srand(7);
    let allowed = [
        PaletteColor::Red,
        PaletteColor::Green,
        PaletteColor::Blue,
        PaletteColor::Yellow,
        PaletteColor::Gray,
    ];
    for _ in 0..100 {
        assert!(allowed.contains(&random_color()));
    }
}

#[test]
fn random_color5_from_its_palette() {
    macroquad::rand::srand(11);
    let allowed = [
        PaletteColor::Red,
        PaletteColor::Blue,
        PaletteColor::Green,
        PaletteColor::Yellow,
        PaletteColor::White,
    ];
    let mut seen = HashSet::new();
    for _ in 0..200 {
        let c = random_color5();
        assert!(allowed.contains(&c));
        seen.insert(c);
    }
    assert!(seen.len() > 1);
}

#[test]
fn random_color_num_zero_and_one_give_red() {
    assert_eq!(random_color_num(0), PaletteColor::Red);
    assert_eq!(random_color_num(1), PaletteColor::Red);
}

#[test]
fn random_color_num_stays_below_limit() {
    macroquad::rand::srand(3);
    let first_three = [PaletteColor::Red, PaletteColor::Green, PaletteColor::Blue];
    let mut seen = HashSet::new();
    for _ in 0..300 {
        let c = random_color_num(3);
        assert!(first_three.contains(&c));
        seen.insert(c);
    }
    // the draw is not stuck at the bottom of its range
    assert!(seen.len() > 1);
}

#[test]
fn random_color_num_is_cut_to_nine() {
    macroquad::rand::srand(5);
    for _ in 0..500 {
        let c = random_color_num(200);
        assert_ne!(c, PaletteColor::SkyBlue);
    }
}

#[test]
fn seed_is_root_times_square_of_last_digits() {
    assert_eq!(seed_from_time(1234, 35), 35 * 34 * 34);
    assert_eq!(seed_from_time(1700000000, 41231), 0);
    assert_eq!(seed_from_time(99, 9), 9 * 99 * 99);
}

#[test]
fn menu_entries_offer_the_opposite_state() {
    assert_eq!(repel_entry(true), ("Disable Repel", MenuColor::Yellow));
    assert_eq!(repel_entry(false), ("Enable Repel", MenuColor::Green));
    assert_eq!(collisions_entry(true), ("Disable Collisions", MenuColor::Green));
    assert_eq!(collisions_entry(false), ("Enable Collisions", MenuColor::Yellow));
}

#[test]
fn palette_picks_by_index() {
    assert_eq!(basic_color(0), PaletteColor::Red);
    assert_eq!(basic_color(4), PaletteColor::Gray);
    assert_eq!(five_color(1), PaletteColor::Blue);
    assert_eq!(five_color(4), PaletteColor::White);
    assert_eq!(numbered_color(5), PaletteColor::Lime);
    assert_eq!(numbered_color(9), PaletteColor::SkyBlue);
    assert_eq!(color_num_limit(0), 0);
    assert_eq!(color_num_limit(7), 7);
    assert_eq!(color_num_limit(10), 9);
    assert_eq!(color_num_limit(255), 9);
}
