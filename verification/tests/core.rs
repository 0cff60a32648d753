use pieced::menu::{
    window_changes, Autosave, Debounce, MenuAction, MenuLayout, MenuPage, MenuRequest, MenuState,
    SaveAction, Setting, SettingKind, WindowChanges, WindowMode, AUTOSAVE_DELAY_NS,
};
use pieced::render::{
    present_mode_for, refresh_limiter, wait_split, FramePacer, PresentMode, QualityPreset,
    LIMITER_SPIN_NS,
};
use pieced::shared::{ActiveTool, AppState, Facing, GridCell, PieceKind, WeaponKind, ARENA_CELLS, MAX_LEVELS};
use pieced::telemetry::percentile_index;
use pieced::text::{chars_of, parse_u32_range};

// ---------------------------------------------------------------------------
// Menus and settings
// ---------------------------------------------------------------------------

#[test]
fn pause_menu_buttons() {
    let mut m = MenuState::new();
    m.open_menu();
    assert!(m.menu_visible());
    assert_eq!(m.press(MenuAction::Settings, AppState::Paused), MenuRequest::Nothing);
    assert_eq!(m.page, MenuPage::Settings);
    assert_eq!(m.press(MenuAction::Back, AppState::Paused), MenuRequest::Nothing);
    assert_eq!(m.page, MenuPage::Main);
    assert_eq!(m.press(MenuAction::Resume, AppState::Paused), MenuRequest::Enter(AppState::Playing));
    assert_eq!(m.press(MenuAction::Quit, AppState::Paused), MenuRequest::Exit);
    // A menu shown during play (a capture) just closes.
    assert_eq!(m.press(MenuAction::Resume, AppState::Playing), MenuRequest::Nothing);
    assert!(!m.menu_open);
}

#[test]
fn tuning_panel_pauses_and_resumes() {
    let mut m = MenuState::default();
    assert_eq!(m.toggle_panel(AppState::Playing), MenuRequest::Enter(AppState::Paused));
    assert!(m.panel_open && m.resume_on_close);
    m.open_menu();
    assert!(!m.menu_visible(), "the panel hides the menu");
    assert_eq!(m.toggle_panel(AppState::Paused), MenuRequest::Enter(AppState::Playing));
    assert!(!m.panel_open);
    // Opened from the pause menu: closing it stays paused.
    assert_eq!(m.toggle_panel(AppState::Paused), MenuRequest::Nothing);
    assert!(!m.close_panel());
    assert!(!m.panel_open);
    m.close_menus();
    assert!(!m.menu_open && m.page == MenuPage::Main);
}

#[test]
fn settings_have_labels_and_kinds() {
    assert_eq!(Setting::ALL.len(), 13);
    assert_eq!(Setting::Fov.label(), "Field of view");
    assert_eq!(Setting::WindowMode.label(), "Window");
    assert_eq!(Setting::Sensitivity.kind(), SettingKind::Slider { min: 50, max: 1000, step: 5 });
    assert_eq!(Setting::Fov.kind(), SettingKind::Slider { min: 6000, max: 9000, step: 100 });
    assert_eq!(Setting::Mute.kind(), SettingKind::Toggle);
    assert_eq!(Setting::Quality.kind(), SettingKind::Choice(&["Battery", "Plugged in"]));
    assert_eq!(Setting::WindowMode.kind(), SettingKind::Choice(&["Fullscreen", "Windowed"]));
    for s in Setting::ALL {
        assert!(!s.label().is_empty());
        if let SettingKind::Slider { min, max, step } = s.kind() {
            assert!(min < max && step > 0 && (max - min) % step == 0);
        }
    }
}

// ---------------------------------------------------------------------------
// Frame pacing
// ---------------------------------------------------------------------------

#[test]
fn pacer_keeps_a_fixed_cadence() {
    let mut p = FramePacer::new(1000);
    assert_eq!(p.interval(), 1000);
    assert_eq!(p.next_deadline(5_000), 5_000);
    // A slightly late frame keeps the cadence.
    assert_eq!(p.next_deadline(6_200), 6_000);
    assert_eq!(p.next_deadline(6_500), 7_000);
    // More than half an interval past the slot restarts it.
    assert_eq!(p.next_deadline(8_501), 8_501);
    assert_eq!(p.next_deadline(8_600), 9_501);
}

#[test]
fn limiter_sleeps_then_spins() {
    assert_eq!(wait_split(0, 5_000_000, LIMITER_SPIN_NS), (4_000_000, 1_000_000));
    assert_eq!(wait_split(0, 500_000, LIMITER_SPIN_NS), (0, 500_000));
    assert_eq!(wait_split(10, 5, LIMITER_SPIN_NS), (0, 0));
}

#[test]
fn vsync_picks_the_present_mode() {
    assert_eq!(present_mode_for(true), PresentMode::Fifo);
    assert_eq!(present_mode_for(false), PresentMode::AutoNoVsync);
    assert_eq!(QualityPreset::default(), QualityPreset::Battery);
}

// ---------------------------------------------------------------------------
// Grid, tools, statistics, text
// ---------------------------------------------------------------------------

#[test]
fn grid_cells_and_facings() {
    assert!(GridCell::new(0, 0, 0).in_bounds());
    assert!(GridCell::new(ARENA_CELLS - 1, ARENA_CELLS - 1, MAX_LEVELS - 1).in_bounds());
    assert!(!GridCell::new(ARENA_CELLS, 0, 0).in_bounds());
    assert!(!GridCell::new(0, -1, 0).in_bounds());
    assert!(!GridCell::new(0, 0, MAX_LEVELS).in_bounds());
    assert_eq!(Facing::North.offset(), (0, -1));
    assert_eq!(Facing::East.offset(), (1, 0));
    for f in Facing::ALL {
        assert_eq!(f.opposite().opposite(), f);
        let (x, z) = f.offset();
        assert_eq!(f.opposite().offset(), (-x, -z));
    }
}

#[test]
fn tools_and_states() {
    assert!(ActiveTool::Build(PieceKind::Ramp).is_build());
    assert!(!ActiveTool::Weapon(WeaponKind::Pump).is_build());
    assert_eq!(ActiveTool::default(), ActiveTool::Weapon(WeaponKind::Rifle));
    assert_eq!(AppState::default(), AppState::Boot);
}

#[test]
fn nearest_rank_percentiles() {
    // 100 sorted frame intervals: p50 is the 50th, p99 the 99th.
    assert_eq!(percentile_index(100, 50), 49);
    assert_eq!(percentile_index(100, 95), 94);
    assert_eq!(percentile_index(100, 99), 98);
    assert_eq!(percentile_index(100, 100), 99);
    assert_eq!(percentile_index(100, 0), 0);
    // Past 100% the rank stops at the last value.
    assert_eq!(percentile_index(100, 250), 99);
    assert_eq!(percentile_index(3, u32::MAX), 2);
    assert_eq!(percentile_index(1, 50), 0);
    // 7 values: p50 is the 4th (3.5 rounds up).
    assert_eq!(percentile_index(7, 50), 3);
    let mut v = vec![16.7f64; 98];
    v.push(19.0);
    v.push(26.0);
    assert_eq!(v[percentile_index(v.len(), 50)], 16.7);
    assert_eq!(v[percentile_index(v.len(), 99)], 19.0);
}

#[test]
fn decimal_text_reads_as_u32() {
    let read = |s: &str| {
        let v = chars_of(s);
        parse_u32_range(&v, 0, v.len())
    };
    assert_eq!(read("0"), Some(0));
    assert_eq!(read("+42"), Some(42));
    assert_eq!(read("007"), Some(7));
    assert_eq!(read("4294967295"), Some(u32::MAX));
    assert_eq!(read("4294967296"), None);
    assert_eq!(read(""), None);
    assert_eq!(read("+"), None);
    assert_eq!(read("-3"), None);
    assert_eq!(read("1 2"), None);
    assert_eq!(read("\u{0661}\u{0662}"), None);
}

#[test]
fn menu_layout_follows_the_state() {
    let mut m = MenuState::new();
    assert_eq!(m.layout(), MenuLayout { root_visible: false, main_card: true, settings_card: false });
    m.open_menu();
    m.press(MenuAction::Settings, AppState::Paused);
    assert_eq!(m.layout(), MenuLayout { root_visible: true, main_card: false, settings_card: true });
}

#[test]
fn debounce_fires_once_after_the_quiet_period() {
    let mut d = Debounce::new();
    assert!(!d.fire(10, 5));
    d.touch(100);
    assert!(d.is_pending());
    assert!(!d.fire(104, 5));
    d.touch(103);
    assert!(!d.fire(107, 5), "a new change restarts the wait");
    assert!(d.fire(108, 5));
    assert!(!d.is_pending());
    assert!(!d.fire(1_000, 5));
    d.touch(7);
    assert!(d.take());
    assert!(!d.take());
    assert_eq!(Debounce::default(), Debounce::new());
}

#[test]
fn autosave_waits_for_changes_to_stop() {
    let second = AUTOSAVE_DELAY_NS;
    let mut a = Autosave::default();
    assert_eq!(a.frame(false, true, true, false, 0), SaveAction::Keep);
    assert_eq!(a.frame(false, false, true, false, second / 2), SaveAction::Keep);
    assert_eq!(a.frame(false, false, true, false, second), SaveAction::Write { background: true });
    // Saved: nothing differs any more.
    assert_eq!(a.frame(false, false, false, false, 3 * second), SaveAction::Keep);
    // Unchanged settings are never written, even when asked.
    a.save_now = true;
    assert_eq!(a.frame(false, false, false, false, 4 * second), SaveAction::Keep);
    assert!(!a.save_now);
    a.save_now = true;
    assert_eq!(a.frame(false, false, true, false, 4 * second), SaveAction::Write { background: true });
}

#[test]
fn autosave_flushes_on_exit_and_never_in_scenarios() {
    let mut a = Autosave::default();
    assert_eq!(a.frame(false, true, true, false, 0), SaveAction::Keep);
    assert_eq!(a.frame(false, false, true, true, 10), SaveAction::Write { background: false });
    assert!(!a.debounce.is_pending());
    let mut s = Autosave::default();
    assert_eq!(s.frame(true, true, true, false, 0), SaveAction::Keep);
    assert_eq!(s.frame(true, false, true, true, 10 * AUTOSAVE_DELAY_NS), SaveAction::Keep);
    assert!(!s.debounce.is_pending());
}

#[test]
fn window_follows_the_settings() {
    let mut last = None;
    let none = WindowChanges { mode: None, present_mode: None };
    assert_eq!(window_changes(&mut last, true, true), none);
    assert_eq!(window_changes(&mut last, true, true), none);
    assert_eq!(
        window_changes(&mut last, false, true),
        WindowChanges { mode: Some(WindowMode::Windowed), present_mode: None }
    );
    assert_eq!(
        window_changes(&mut last, true, false),
        WindowChanges {
            mode: Some(WindowMode::BorderlessFullscreen),
            present_mode: Some(PresentMode::AutoNoVsync)
        }
    );
    assert_eq!(last, Some((true, false)));
}

#[test]
fn limiter_restarts_only_when_its_interval_changes() {
    let mut limiter: Option<FramePacer> = None;
    refresh_limiter(&mut limiter, true, Some(16_666_666));
    assert!(limiter.is_none(), "vsync paces the frames itself");
    refresh_limiter(&mut limiter, false, Some(16_666_666));
    let deadline = limiter.as_mut().unwrap().next_deadline(1_000);
    assert_eq!(deadline, 1_000);
    refresh_limiter(&mut limiter, false, Some(16_666_666));
    assert_eq!(limiter.as_mut().unwrap().next_deadline(2_000), 1_000 + 16_666_666, "cadence kept");
    refresh_limiter(&mut limiter, false, Some(8_333_333));
    assert_eq!(limiter.as_ref().unwrap().interval(), 8_333_333);
    assert_eq!(limiter.as_mut().unwrap().next_deadline(5), 5, "a fresh cadence");
    refresh_limiter(&mut limiter, false, None);
    assert!(limiter.is_none());
}

#[test]
fn setting_values_snap_to_range_and_step() {
    // Sliders, in hundredths: clamped, then to the nearest step (a half up).
    assert_eq!(Setting::Sensitivity.snap(52), 50);
    assert_eq!(Setting::Sensitivity.snap(53), 55);
    assert_eq!(Setting::Sensitivity.snap(0), 50);
    assert_eq!(Setting::Sensitivity.snap(2_000), 1_000);
    assert_eq!(Setting::Fov.snap(6_049), 6_000);
    assert_eq!(Setting::Fov.snap(6_050), 6_100);
    assert_eq!(Setting::Volume.snap(-40), 0);
    assert_eq!(Setting::Volume.snap(97), 95);
    assert_eq!(Setting::Volume.snap(98), 100);
    // A snapped value stays as it is.
    assert_eq!(Setting::AdsMultiplier.snap(Setting::AdsMultiplier.snap(77) as i64), 75);
    // Toggles: on from a half.
    assert_eq!(Setting::Mute.snap(49), 0);
    assert_eq!(Setting::Mute.snap(50), 100);
    assert_eq!(Setting::Mute.snap(100), 100);
    // Choices: the nearest index, held to the options.
    assert_eq!(Setting::Quality.snap(0), 0);
    assert_eq!(Setting::Quality.snap(49), 0);
    assert_eq!(Setting::Quality.snap(50), 100);
    assert_eq!(Setting::WindowMode.snap(100), 100);
    assert_eq!(Setting::WindowMode.snap(300), 100);
    assert_eq!(Setting::WindowMode.snap(-150), 0);
}
