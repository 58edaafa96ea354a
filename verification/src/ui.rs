use vstd::prelude::*;
use crate::globals::{DisplayMode, Signals};

verus! {

/// The colours that menu entries are written in.
#[derive(Clone, Copy, Debug, PartialEq, Eq, Structural)]
pub enum MenuColor {
    Green,
    Yellow,
}

/// The caption and colour of the menu entry that switches the short-range
/// repulsion: it offers the opposite of the current state.
pub fn repel_entry(repel_on: bool) -> (e: (&'static str, MenuColor))
    ensures
        repel_on ==> e.0@ == "Disable Repel"@ && e.1 == MenuColor::Yellow,
        !repel_on ==> e.0@ == "Enable Repel"@ && e.1 == MenuColor::Green,
{
    if repel_on {
        ("Disable Repel", MenuColor::Yellow)
    } else {
        ("Enable Repel", MenuColor::Green)
    }
}

/// The caption and colour of the menu entry that switches collisions between
/// particles: it offers the opposite of the current state.
pub fn collisions_entry(collisions: bool) -> (e: (&'static str, MenuColor))
    ensures
        collisions ==> e.0@ == "Disable Collisions"@ && e.1 == MenuColor::Green,
        !collisions ==> e.0@ == "Enable Collisions"@ && e.1 == MenuColor::Yellow,
{
    if collisions {
        ("Disable Collisions", MenuColor::Green)
    } else {
        ("Enable Collisions", MenuColor::Yellow)
    }
}

} // verus!

verus! {

/// The entries of the top menu that change something when clicked.
#[derive(Clone, Copy, Debug, PartialEq, Eq, Structural)]
pub enum MenuClick {
    StartNewSim,
    Quit,
    Settings,
    Repel,
    Collisions,
    ShuffleParticles,
    Monitor,
    DisplayFilled,
    DisplayEnergy,
    DisplayStroke,
    FieldRange,
    About,
    CloseAbout,
}

/// What the menu reads and writes: the switches of the rules and the view,
/// which windows are open, and the signals raised for the simulation loop.
#[derive(Clone, Copy, Debug, PartialEq, Eq, Structural)]
pub struct MenuState {
    pub repel_on: bool,
    pub collisions: bool,
    pub display: DisplayMode,
    pub field_range: bool,
    pub monitor_win: bool,
    pub settings_win: bool,
    pub about_win: bool,
    pub signals: Signals,
}

/// The menu state after `click`: every entry but quit changes exactly the one
/// thing it is named after; quit changes nothing.
pub open spec fn menu_next(state: MenuState, click: MenuClick) -> MenuState {
    match click {
        MenuClick::StartNewSim => MenuState {
            signals: Signals { start_new_sim: true, ..state.signals },
            ..state
        },
        MenuClick::Quit => state,
        MenuClick::Settings => MenuState { settings_win: !state.settings_win, ..state },
        MenuClick::Repel => MenuState { repel_on: !state.repel_on, ..state },
        MenuClick::Collisions => MenuState { collisions: !state.collisions, ..state },
        MenuClick::ShuffleParticles => MenuState {
            signals: Signals { shuffle_interactions: true, ..state.signals },
            ..state
        },
        MenuClick::Monitor => MenuState { monitor_win: !state.monitor_win, ..state },
        MenuClick::DisplayFilled => MenuState { display: DisplayMode::ELEMENTS, ..state },
        MenuClick::DisplayEnergy => MenuState { display: DisplayMode::ENERGY, ..state },
        MenuClick::DisplayStroke => MenuState { display: DisplayMode::STROKE, ..state },
        MenuClick::FieldRange => MenuState { field_range: !state.field_range, ..state },
        MenuClick::About => MenuState { about_win: !state.about_win, ..state },
        MenuClick::CloseAbout => MenuState { about_win: false, ..state },
    }
}

/// Answers one click of the menu: returns the new state and whether the
/// program quits, which it does for the quit entry only.
pub fn menu_step(state: MenuState, click: MenuClick) -> (r: (MenuState, bool))
    ensures
        r.0 == menu_next(state, click),
        r.1 == (click == MenuClick::Quit),
        r.0.repel_on == (state.repel_on != (click == MenuClick::Repel)),
        r.0.collisions == (state.collisions != (click == MenuClick::Collisions)),
        r.0.field_range == (state.field_range != (click == MenuClick::FieldRange)),
        r.0.monitor_win == (state.monitor_win != (click == MenuClick::Monitor)),
        r.0.settings_win == (state.settings_win != (click == MenuClick::Settings)),
        r.0.about_win == (if click == MenuClick::About {
            !state.about_win
        } else if click == MenuClick::CloseAbout {
            false
        } else {
            state.about_win
        }),
        r.0.display == (if click == MenuClick::DisplayFilled {
            DisplayMode::ELEMENTS
        } else if click == MenuClick::DisplayEnergy {
            DisplayMode::ENERGY
        } else if click == MenuClick::DisplayStroke {
            DisplayMode::STROKE
        } else {
            state.display
        }),
        r.0.signals.start_new_sim == (state.signals.start_new_sim || click == MenuClick::StartNewSim),
        r.0.signals.shuffle_interactions == (state.signals.shuffle_interactions || click
            == MenuClick::ShuffleParticles),
        r.0.signals.restart == state.signals.restart,
        r.0.signals.quit == state.signals.quit,
        r.0.signals.particles_new_settings == state.signals.particles_new_settings,
{
    let mut s = state;
    let mut quit = false;
    match click {
        MenuClick::StartNewSim => {
            s.signals.start_new_sim = true;
        },
        MenuClick::Quit => {
            quit = true;
        },
        MenuClick::Settings => {
            s.settings_win = !s.settings_win;
        },
        MenuClick::Repel => {
            s.repel_on = !s.repel_on;
        },
        MenuClick::Collisions => {
            s.collisions = !s.collisions;
        },
        MenuClick::ShuffleParticles => {
            s.signals.shuffle_interactions = true;
        },
        MenuClick::Monitor => {
            s.monitor_win = !s.monitor_win;
        },
        MenuClick::DisplayFilled => {
            s.display = DisplayMode::ELEMENTS;
        },
        MenuClick::DisplayEnergy => {
            s.display = DisplayMode::ENERGY;
        },
        MenuClick::DisplayStroke => {
            s.display = DisplayMode::STROKE;
        },
        MenuClick::FieldRange => {
            s.field_range = !s.field_range;
        },
        MenuClick::About => {
            s.about_win = !s.about_win;
        },
        MenuClick::CloseAbout => {
            s.about_win = false;
        },
    }
    (s, quit)
}

/// The sliders of the settings window.
#[derive(Clone, Copy, Debug, PartialEq, Eq, Structural)]
pub enum SettingsSlider {
    WorldRange,
    ParticlesNumber,
    ParticlesSize,
    ParticlesDense,
    ParticleTypes,
    FieldRadius,
    Force,
    Repel,
    Damping,
}

/// Whether moving `slider` asks the simulation to re-apply the settings of
/// its particles: only the size, the density and the damping do.
pub fn slider_marks_new_settings(slider: SettingsSlider) -> (b: bool)
    ensures
        b == (slider == SettingsSlider::ParticlesSize || slider == SettingsSlider::ParticlesDense
            || slider == SettingsSlider::Damping),
{
    match slider {
        SettingsSlider::ParticlesSize | SettingsSlider::ParticlesDense | SettingsSlider::Damping => true,
        _ => false,
    }
}

/// What a click does, field by field: each switch flips its own flag and only
/// that, each display entry sets its own mode, closing the about window clears
/// its flag, start-new-sim and shuffle raise their own signal and no other, and
/// nothing else of the state ever changes.
pub proof fn law_menu_fields(state: MenuState, click: MenuClick)
    ensures
        menu_next(state, click).repel_on == (state.repel_on != (click == MenuClick::Repel)),
        menu_next(state, click).collisions == (state.collisions != (click == MenuClick::Collisions)),
        menu_next(state, click).field_range == (state.field_range != (click == MenuClick::FieldRange)),
        menu_next(state, click).monitor_win == (state.monitor_win != (click == MenuClick::Monitor)),
        menu_next(state, click).settings_win == (state.settings_win != (click == MenuClick::Settings)),
        menu_next(state, click).about_win == (if click == MenuClick::About {
            !state.about_win
        } else if click == MenuClick::CloseAbout {
            false
        } else {
            state.about_win
        }),
        menu_next(state, click).display == (if click == MenuClick::DisplayFilled {
            DisplayMode::ELEMENTS
        } else if click == MenuClick::DisplayEnergy {
            DisplayMode::ENERGY
        } else if click == MenuClick::DisplayStroke {
            DisplayMode::STROKE
        } else {
            state.display
        }),
        menu_next(state, click).signals.start_new_sim == (state.signals.start_new_sim || click == MenuClick::StartNewSim),
        menu_next(state, click).signals.shuffle_interactions == (state.signals.shuffle_interactions || click
            == MenuClick::ShuffleParticles),
        menu_next(state, click).signals.restart == state.signals.restart,
        menu_next(state, click).signals.quit == state.signals.quit,
        menu_next(state, click).signals.particles_new_settings == state.signals.particles_new_settings,
{
}

/// A switching entry of the menu undoes itself: one click changes the state,
/// and a second click on it brings the state back to what it was.
pub proof fn law_switch_twice(state: MenuState, click: MenuClick)
    requires
        click == MenuClick::Settings || click == MenuClick::Repel || click == MenuClick::Collisions
            || click == MenuClick::Monitor || click == MenuClick::FieldRange || click
            == MenuClick::About,
    ensures
        menu_next(menu_next(state, click), click) == state,
        menu_next(state, click) != state,
{
}

/// Choosing a display mode is idempotent, and raising a signal twice is the
/// same as raising it once.
pub proof fn law_set_entries_idempotent(state: MenuState, click: MenuClick)
    requires
        click == MenuClick::DisplayFilled || click == MenuClick::DisplayEnergy || click
            == MenuClick::DisplayStroke || click == MenuClick::StartNewSim || click
            == MenuClick::ShuffleParticles || click == MenuClick::CloseAbout,
    ensures
        menu_next(menu_next(state, click), click) == menu_next(state, click),
{
}

} // verus!

verus! {

/// What the `image` crate decodes from the PNG file `bytes`: its width, its
/// height and its pixels as RGBA bytes, row by row; none when the bytes are
/// not a PNG image it can read.
pub uninterp spec fn decoded_png_rgba(bytes: Seq<u8>) -> Option<(u32, u32, Seq<u8>)>;

/// `image::load_from_memory_with_format` with the PNG format, followed by the
/// conversion of the image to 8-bit RGBA. The result is a function of the
/// bytes alone; what it is is left to the name `decoded_png_rgba`.
#[verifier::external_body]
fn decode_png_rgba(bytes: &[u8]) -> (r: Option<(u32, u32, Vec<u8>)>)
    ensures
        r is None <==> decoded_png_rgba(bytes@) is None,
        r matches Some(t) ==> decoded_png_rgba(bytes@) == Some((t.0, t.1, t.2@)),
{
    match image::load_from_memory_with_format(bytes, image::ImageFormat::Png) {
        Ok(img) => {
            let rgba = img.into_rgba8();
            let (width, height) = rgba.dimensions();
            Some((width, height, rgba.into_raw()))
        },
        Err(_) => None,
    }
}

/// The pixels of a menu picture, read from the bytes of its PNG file: its
/// width, height and RGBA bytes, when the file decodes and holds four bytes
/// for each of its `width * height` pixels, as a texture of that size needs;
/// none otherwise.
pub fn load_image(bytes: &[u8]) -> (r: Option<(u32, u32, Vec<u8>)>)
    ensures
        r matches Some(t) ==> decoded_png_rgba(bytes@) == Some((t.0, t.1, t.2@)) && t.2@.len() == 4
            * t.0 * t.1,
        r is None ==> decoded_png_rgba(bytes@) is None || decoded_png_rgba(bytes@).unwrap().2.len()
            != 4 * decoded_png_rgba(bytes@).unwrap().0 * decoded_png_rgba(bytes@).unwrap().1,
{
    match decode_png_rgba(bytes) {
        Some((width, height, pixels)) => {
            let w: u128 = width as u128;
            let h: u128 = height as u128;
            assert(w * h <= 0xffff_ffff * 0xffff_ffff) by (nonlinear_arith)
                requires
                    w <= 0xffff_ffff,
                    h <= 0xffff_ffff,
            ;
            let needed: u128 = w * h * 4;
            assert(needed == 4 * width * height) by (nonlinear_arith)
                requires
                    needed == w * h * 4,
                    w == width,
                    h == height,
            ;
            if pixels.len() as u128 == needed {
                Some((width, height, pixels))
            } else {
                None
            }
        },
        None => None,
    }
}

} // verus!

