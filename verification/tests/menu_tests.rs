use madlab::globals::{DisplayMode, Signals};
use madlab::ui::{menu_step, slider_marks_new_settings, MenuClick, MenuState, SettingsSlider};

fn base() -> MenuState {
    MenuState {
        repel_on: true,
        collisions: false,
        display: DisplayMode::ELEMENTS,
        field_range: false,
        monitor_win: false,
        settings_win: false,
        about_win: false,
        signals: Signals::default(),
    }
}

#[test]
fn quit_changes_nothing_and_quits() {
    let (s, quit) = menu_step(base(), MenuClick::Quit);
    assert!(quit);
    assert_eq!(s, base());
}

#[test]
fn switches_flip_one_flag() {
    let (s, quit) = menu_step(base(), MenuClick::Repel);
    assert!(!quit);
    assert_eq!(s, MenuState { repel_on: false, ..base() });
    let (s, _) = menu_step(base(), MenuClick::Collisions);
    assert_eq!(s, MenuState { collisions: true, ..base() });
    let (s, _) = menu_step(base(), MenuClick::FieldRange);
    assert_eq!(s, MenuState { field_range: true, ..base() });
    let (s, _) = menu_step(base(), MenuClick::Monitor);
    assert_eq!(s, MenuState { monitor_win: true, ..base() });
    let (s, _) = menu_step(base(), MenuClick::Settings);
    assert_eq!(s, MenuState { settings_win: true, ..base() });
    let (s, _) = menu_step(base(), MenuClick::About);
    assert_eq!(s, MenuState { about_win: true, ..base() });
}

#[test]
fn switch_twice_restores() {
    for click in [
        MenuClick::Repel,
        MenuClick::Collisions,
        MenuClick::FieldRange,
        MenuClick::Monitor,
        MenuClick::Settings,
        MenuClick::About,
    ] {
        let (once, _) = menu_step(base(), click);
        assert_ne!(once, base());
        let (twice, _) = menu_step(once, click);
        assert_eq!(twice, base());
    }
}

#[test]
fn display_entries_set_mode() {
    let (s, _) = menu_step(base(), MenuClick::DisplayEnergy);
    assert_eq!(s.display, DisplayMode::ENERGY);
    let (s, _) = menu_step(s, MenuClick::DisplayStroke);
    assert_eq!(s.display, DisplayMode::STROKE);
    let (s2, _) = menu_step(s, MenuClick::DisplayStroke);
    assert_eq!(s2, s);
    let (s, _) = menu_step(s, MenuClick::DisplayFilled);
    assert_eq!(s.display, DisplayMode::ELEMENTS);
}

#[test]
fn signal_entries_raise_signals() {
    let (s, quit) = menu_step(base(), MenuClick::StartNewSim);
    assert!(!quit);
    assert!(s.signals.start_new_sim);
    assert!(!s.signals.shuffle_interactions);
    let (s, _) = menu_step(s, MenuClick::ShuffleParticles);
    assert!(s.signals.start_new_sim && s.signals.shuffle_interactions);
}

#[test]
fn close_about_closes() {
    let open = MenuState { about_win: true, ..base() };
    let (s, _) = menu_step(open, MenuClick::CloseAbout);
    assert!(!s.about_win);
    let (s, _) = menu_step(base(), MenuClick::CloseAbout);
    assert_eq!(s, base());
}

#[test]
fn only_size_density_and_damping_mark_new_settings() {
    assert!(slider_marks_new_settings(SettingsSlider::ParticlesSize));
    assert!(slider_marks_new_settings(SettingsSlider::ParticlesDense));
    assert!(slider_marks_new_settings(SettingsSlider::Damping));
    for s in [
        SettingsSlider::WorldRange,
        SettingsSlider::ParticlesNumber,
        SettingsSlider::ParticleTypes,
        SettingsSlider::FieldRadius,
        SettingsSlider::Force,
        SettingsSlider::Repel,
    ] {
        assert!(!slider_marks_new_settings(s));
    }
}
