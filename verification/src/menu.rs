//! Pause menu and tuning-panel state.
//!
//! - Entering `Paused` opens the menu (Resume, Settings, Quit); entering
//!   `Playing` closes everything.
//! - F4 opens the tuning panel and pauses so the cursor is free; F4 again (or
//!   closing the panel) returns to play when the panel was opened from play.
//! - Settings autosave about a second after changes stop; scenario runs never
//!   save, and a pending change is flushed on exit.
//! - Window mode and vsync changes apply to the live window.
use crate::render::PresentMode;
use crate::shared::AppState;
use vstd::prelude::*;

verus! {

/// Which menu page is showing.
#[derive(Debug, Clone, Copy, PartialEq, Eq, Structural)]
pub enum MenuPage {
    Main,
    Settings,
}

impl Default for MenuPage {
    fn default() -> (r: Self)
        ensures
            r == MenuPage::Main,
    {
        MenuPage::Main
    }
}

/// A pause-menu button.
#[derive(Debug, Clone, Copy, PartialEq, Eq, Structural)]
pub enum MenuAction {
    Resume,
    Settings,
    Quit,
    Back,
}

/// What a menu decision asks of the game besides its own state.
#[derive(Debug, Clone, Copy, PartialEq, Eq, Structural)]
pub enum MenuRequest {
    Nothing,
    /// Move the game to this state.
    Enter(AppState),
    /// Quit the game.
    Exit,
}

/// What the menus show.
#[derive(Debug, Clone)]
pub struct MenuState {
    pub menu_open: bool,
    pub page: MenuPage,
    pub panel_open: bool,
    /// Closing the tuning panel returns to play (it was opened from play).
    pub resume_on_close: bool,
}

impl MenuState {
    pub open spec fn resumes_on_close(self) -> bool {
        self.resume_on_close
    }

    /// Nothing open.
    pub fn new() -> (r: Self)
        ensures
            !r.menu_open,
            r.page == MenuPage::Main,
            !r.panel_open,
            !r.resumes_on_close(),
    {
        MenuState { menu_open: false, page: MenuPage::Main, panel_open: false, resume_on_close: false }
    }

    /// The pause menu shows when it is open and the tuning panel is not.
    pub fn menu_visible(&self) -> (r: bool)
        ensures
            r == (self.menu_open && !self.panel_open),
    {
        self.menu_open && !self.panel_open
    }

    /// Entering `Paused`: the menu opens on its main page.
    pub fn open_menu(&mut self)
        ensures
            final(self).menu_open,
            final(self).page == MenuPage::Main,
            final(self).panel_open == old(self).panel_open,
            final(self).resumes_on_close() == old(self).resumes_on_close(),
    {
        self.menu_open = true;
        self.page = MenuPage::Main;
    }

    /// Entering `Playing`: everything closes.
    pub fn close_menus(&mut self)
        ensures
            !final(self).menu_open,
            !final(self).panel_open,
            final(self).page == MenuPage::Main,
            final(self).resumes_on_close() == old(self).resumes_on_close(),
    {
        self.menu_open = false;
        self.panel_open = false;
        self.page = MenuPage::Main;
    }

    /// F4: opens or closes the tuning panel. Opening it from play pauses (so the
    /// cursor is free); closing it resumes play if that is where it was opened.
    pub fn toggle_panel(&mut self, state: AppState) -> (r: MenuRequest)
        ensures
            final(self).menu_open == old(self).menu_open,
            final(self).page == old(self).page,
            (final(self).panel_open, final(self).resumes_on_close(), r) == toggle_model(
                old(self).panel_open,
                old(self).resumes_on_close(),
                state,
            ),
    {
        if self.panel_open {
            self.panel_open = false;
            if self.resume_on_close && state == AppState::Paused {
                MenuRequest::Enter(AppState::Playing)
            } else {
                MenuRequest::Nothing
            }
        } else {
            self.panel_open = true;
            self.resume_on_close = state == AppState::Playing;
            if self.resume_on_close {
                MenuRequest::Enter(AppState::Paused)
            } else {
                MenuRequest::Nothing
            }
        }
    }

    /// The panel's close button: closes it and says whether play should resume.
    pub fn close_panel(&mut self) -> (r: bool)
        ensures
            !final(self).panel_open,
            final(self).menu_open == old(self).menu_open,
            final(self).page == old(self).page,
            final(self).resumes_on_close() == old(self).resumes_on_close(),
            r == old(self).resumes_on_close(),
    {
        self.panel_open = false;
        self.resume_on_close
    }

    /// A pause-menu button press.
    pub fn press(&mut self, action: MenuAction, state: AppState) -> (r: MenuRequest)
        ensures
            final(self).panel_open == old(self).panel_open,
            final(self).resumes_on_close() == old(self).resumes_on_close(),
            match action {
                MenuAction::Resume => if state == AppState::Paused {
                    &&& r == MenuRequest::Enter(AppState::Playing)
                    &&& final(self).menu_open == old(self).menu_open
                    &&& final(self).page == old(self).page
                } else {
                    &&& r == MenuRequest::Nothing
                    &&& !final(self).menu_open
                    &&& final(self).page == old(self).page
                },
                MenuAction::Settings => {
                    &&& r == MenuRequest::Nothing
                    &&& final(self).menu_open == old(self).menu_open
                    &&& final(self).page == MenuPage::Settings
                },
                MenuAction::Back => {
                    &&& r == MenuRequest::Nothing
                    &&& final(self).menu_open == old(self).menu_open
                    &&& final(self).page == MenuPage::Main
                },
                MenuAction::Quit => {
                    &&& r == MenuRequest::Exit
                    &&& final(self).menu_open == old(self).menu_open
                    &&& final(self).page == old(self).page
                },
            },
    {
        match action {
            MenuAction::Resume => {
                if state == AppState::Paused {
                    MenuRequest::Enter(AppState::Playing)
                } else {
                    self.menu_open = false;
                    MenuRequest::Nothing
                }
            },
            MenuAction::Settings => {
                self.page = MenuPage::Settings;
                MenuRequest::Nothing
            },
            MenuAction::Back => {
                self.page = MenuPage::Main;
                MenuRequest::Nothing
            },
            MenuAction::Quit => MenuRequest::Exit,
        }
    }
}

impl Default for MenuState {
    fn default() -> (r: Self)
        ensures
            !r.menu_open,
            r.page == MenuPage::Main,
            !r.panel_open,
            !r.resumes_on_close(),
    {
        MenuState::new()
    }
}

/// A player-facing setting on the pause menu's Settings page.
#[derive(Debug, Clone, Copy, PartialEq, Eq, Structural, Hash)]
pub enum Setting {
    Sensitivity,
    AdsMultiplier,
    BuildMultiplier,
    Acceleration,
    AimFriction,
    Fov,
    Bloom,
    DamageNumbers,
    CameraShake,
    Volume,
    Mute,
    Quality,
    WindowMode,
}

/// How a setting is edited. Slider values are in hundredths of the displayed
/// value (sensitivity 0.5 is 50).
#[derive(Debug, Clone, Copy, PartialEq, Eq)]
pub enum SettingKind {
    /// Displayed value range and step, in hundredths.
    Slider { min: u32, max: u32, step: u32 },
    Toggle,
    /// The options, in order; the setting's value is the chosen index.
    Choice(&'static [&'static str]),
}

/// A setting's label on the menu.
pub open spec fn setting_label(s: Setting) -> Seq<char> {
    match s {
        Setting::Sensitivity => "Sensitivity"@,
        Setting::AdsMultiplier => "Aim-down-sights multiplier"@,
        Setting::BuildMultiplier => "Build multiplier"@,
        Setting::Acceleration => "Acceleration curve"@,
        Setting::AimFriction => "Aim friction (rifle)"@,
        Setting::Fov => "Field of view"@,
        Setting::Bloom => "Crosshair bloom"@,
        Setting::DamageNumbers => "Damage numbers"@,
        Setting::CameraShake => "Camera shake"@,
        Setting::Volume => "Volume"@,
        Setting::Mute => "Mute"@,
        Setting::Quality => "Quality"@,
        Setting::WindowMode => "Window"@,
    }
}

/// A slider's (min, max, step), in hundredths; `None` for other settings.
pub open spec fn slider_range(s: Setting) -> Option<(u32, u32, u32)> {
    match s {
        Setting::Sensitivity => Some((50u32, 1000u32, 5u32)),
        Setting::AdsMultiplier => Some((20u32, 150u32, 5u32)),
        Setting::BuildMultiplier => Some((30u32, 200u32, 5u32)),
        Setting::Fov => Some((6000u32, 9000u32, 100u32)),
        Setting::CameraShake | Setting::Volume => Some((0u32, 100u32, 5u32)),
        _ => None,
    }
}

/// The options of a choice setting; `None` for other settings.
pub open spec fn choice_options(s: Setting) -> Option<Seq<Seq<char>>> {
    match s {
        Setting::Quality => Some(seq!["Battery"@, "Plugged in"@]),
        Setting::WindowMode => Some(seq!["Fullscreen"@, "Windowed"@]),
        _ => None,
    }
}

/// The settings that are on/off switches.
pub open spec fn is_toggle(s: Setting) -> bool {
    slider_range(s) is None && choice_options(s) is None
}

/// Every slider runs from a lower to a higher value in whole steps.
pub proof fn lemma_sliders_step_evenly(s: Setting)
    ensures
        slider_range(s) matches Some((min, max, step)) ==> {
            &&& min < max
            &&& step > 0
            &&& (max - min) % (step as int) == 0
        },
{
    assert(950int % 5 == 0);
    assert(130int % 5 == 0);
    assert(170int % 5 == 0);
    assert(3000int % 100 == 0);
    assert(100int % 5 == 0);
}

impl Setting {
    pub const ALL: [Setting; 13] = [
        Setting::Sensitivity,
        Setting::AdsMultiplier,
        Setting::BuildMultiplier,
        Setting::Acceleration,
        Setting::AimFriction,
        Setting::Fov,
        Setting::Bloom,
        Setting::DamageNumbers,
        Setting::CameraShake,
        Setting::Volume,
        Setting::Mute,
        Setting::Quality,
        Setting::WindowMode,
    ];

    pub fn label(self) -> (r: &'static str)
        ensures
            r@ == setting_label(self),
    {
        match self {
            Setting::Sensitivity => "Sensitivity",
            Setting::AdsMultiplier => "Aim-down-sights multiplier",
            Setting::BuildMultiplier => "Build multiplier",
            Setting::Acceleration => "Acceleration curve",
            Setting::AimFriction => "Aim friction (rifle)",
            Setting::Fov => "Field of view",
            Setting::Bloom => "Crosshair bloom",
            Setting::DamageNumbers => "Damage numbers",
            Setting::CameraShake => "Camera shake",
            Setting::Volume => "Volume",
            Setting::Mute => "Mute",
            Setting::Quality => "Quality",
            Setting::WindowMode => "Window",
        }
    }

    pub fn kind(self) -> (r: SettingKind)
        ensures
            match r {
                SettingKind::Slider { min, max, step } => slider_range(self) == Some(
                    (min, max, step),
                ),
                SettingKind::Toggle => is_toggle(self),
                SettingKind::Choice(options) => choice_options(self) == Some(
                    options@.map_values(|o: &str| o@),
                ),
            },
    {
        match self {
            Setting::Sensitivity => SettingKind::Slider { min: 50, max: 1000, step: 5 },
            Setting::AdsMultiplier => SettingKind::Slider { min: 20, max: 150, step: 5 },
            Setting::BuildMultiplier => SettingKind::Slider { min: 30, max: 200, step: 5 },
            Setting::Fov => SettingKind::Slider { min: 6000, max: 9000, step: 100 },
            Setting::CameraShake | Setting::Volume => SettingKind::Slider {
                min: 0,
                max: 100,
                step: 5,
            },
            Setting::Acceleration
            | Setting::AimFriction
            | Setting::Bloom
            | Setting::DamageNumbers
            | Setting::Mute => SettingKind::Toggle,
            Setting::Quality => {
                let options: &'static [&'static str] = &["Battery", "Plugged in"];
                proof {
                    assert(options@.map_values(|o: &str| o@) =~= seq!["Battery"@, "Plugged in"@]);
                }
                SettingKind::Choice(options)
            },
            Setting::WindowMode => {
                let options: &'static [&'static str] = &["Fullscreen", "Windowed"];
                proof {
                    assert(options@.map_values(|o: &str| o@) =~= seq!["Fullscreen"@, "Windowed"@]);
                }
                SettingKind::Choice(options)
            },
        }
    }
}

/// `value` held to `lo..=hi`.
pub open spec fn clamp_int(value: int, lo: int, hi: int) -> int {
    if value < lo {
        lo
    } else if value > hi {
        hi
    } else {
        value
    }
}

/// The displayed value, in hundredths, that setting `s` takes when it is set
/// to `value` (in hundredths): a slider's value is held to its range and moved
/// to the nearest step, a half step rounding up; a toggle is on (100) from 50
/// and off (0) below; a choice is the nearest index, a half rounding up, held
/// to the options (as 100 per index).
pub open spec fn snapped(s: Setting, value: int) -> int {
    match slider_range(s) {
        Some((min, max, step)) => {
            let v = clamp_int(value, min as int, max as int);
            min + step * ((2 * (v - min) + step) / (2 * step))
        },
        None => match choice_options(s) {
            Some(options) => 100 * clamp_int((value + 50) / 100, 0, options.len() - 1),
            None => if value >= 50 {
                100
            } else {
                0
            },
        },
    }
}

impl Setting {
    /// The value, in hundredths of the displayed value, that the setting
    /// takes when set to `value` (in hundredths): clamped to range and snapped
    /// to the step for sliders, on or off for toggles, an index for choices.
    pub fn snap(self, value: i64) -> (r: u32)
        ensures
            r == snapped(self, value as int),
            slider_range(self) matches Some((min, max, step)) ==> {
                &&& min <= r <= max
                &&& (r - min) % (step as int) == 0
            },
    {
        proof {
            lemma_sliders_step_evenly(self);
        }
        match self.kind() {
            SettingKind::Slider { min, max, step } => {
                let v: i64 = if value < min as i64 {
                    min as i64
                } else if value > max as i64 {
                    max as i64
                } else {
                    value
                };
                let off: u32 = (v - min as i64) as u32;
                assert(off <= max - min);
                let k: u32 = (2 * off + step) / (2 * step);
                proof {
                    let span = (max - min) as int;
                    let n = span / (step as int);
                    assert(n * step == span) by (nonlinear_arith)
                        requires
                            span % (step as int) == 0,
                            step > 0,
                            n == span / (step as int),
                    ;
                    assert(k <= n) by (nonlinear_arith)
                        requires
                            k == (2 * off + step) / (2 * step),
                            off <= span,
                            n * step == span,
                            step > 0,
                    ;
                    assert(step * k <= span) by (nonlinear_arith)
                        requires
                            k <= n,
                            n * step == span,
                            step > 0,
                    ;
                    assert((step * k) % (step as int) == 0) by (nonlinear_arith)
                        requires
                            step > 0,
                    ;
                }
                min + step * k
            },
            SettingKind::Toggle => {
                if value >= 50 {
                    100
                } else {
                    0
                }
            },
            SettingKind::Choice(options) => {
                proof {
                    assert(options@.map_values(|o: &str| o@).len() == options@.len());
                    assert(choice_options(self) matches Some(o) && o.len() == 2);
                }
                let last: i64 = (options.len() - 1) as i64;
                let i: i64 = if value < 0 {
                    0
                } else {
                    let q: i64 = value / 100 + if value % 100 >= 50 {
                        1i64
                    } else {
                        0i64
                    };
                    if q > last {
                        last
                    } else {
                        q
                    }
                };
                proof {
                    if value >= 0 {
                        assert(value / 100 + (if value % 100 >= 50 { 1int } else { 0int }) == (
                        value + 50) / 100) by (nonlinear_arith)
                            requires
                                value >= 0,
                        ;
                    } else {
                        assert((value + 50) / 100 <= 0) by (nonlinear_arith)
                            requires
                                value < 0,
                        ;
                    }
                }
                (100 * i) as u32
            },
        }
    }
}

/// Setting a value that was already snapped leaves it as it is.
pub proof fn lemma_snap_is_idempotent(s: Setting, value: int)
    ensures
        snapped(s, snapped(s, value)) == snapped(s, value),
{
    lemma_sliders_step_evenly(s);
    match slider_range(s) {
        Some((min, max, step)) => {
            let v = clamp_int(value, min as int, max as int);
            let k = (2 * (v - min) + step) / (2 * step);
            let span = (max - min) as int;
            assert(0 <= k) by (nonlinear_arith)
                requires
                    k == (2 * (v - min) + step) / (2 * step),
                    v >= min,
                    step > 0,
            ;
            let n = span / (step as int);
            assert(n * step == span) by (nonlinear_arith)
                requires
                    span % (step as int) == 0,
                    step > 0,
                    n == span / (step as int),
            ;
            assert(k <= n) by (nonlinear_arith)
                requires
                    k == (2 * (v - min) + step) / (2 * step),
                    v - min <= span,
                    n * step == span,
                    step > 0,
            ;
            assert(0 <= step * k <= span) by (nonlinear_arith)
                requires
                    0 <= k <= n,
                    n * step == span,
                    step > 0,
            ;
            assert((2 * (step * k) + step) / (2 * step) == k) by (nonlinear_arith)
                requires
                    step > 0,
                    k >= 0,
            ;
        },
        None => {
            if choice_options(s) is Some {
                let c = clamp_int((value + 50) / 100, 0, 1);
                assert((100 * c + 50) / 100 == c) by (nonlinear_arith)
                    requires
                        0 <= c <= 1,
                ;
            }
        },
    }
}

proof fn lemma_slider_at(s: Setting, min: int, max: int, step: int, v: int)
    requires
        slider_range(s) matches Some((lo, hi, st)) && lo == min && hi == max && st == step,
        0 <= min < max,
        step > 0,
        (max - min) % step == 0,
    ensures
        min <= v <= max && (v - min) % step == 0 ==> snapped(s, v) == v,
        v >= max ==> snapped(s, v) == max,
        v <= min ==> snapped(s, v) == min,
{
    let c = clamp_int(v, min, max);
    let k = (2 * (c - min) + step) / (2 * step);
    assert(snapped(s, v) == min + step * k);
    if min <= v <= max && (v - min) % step == 0 {
        let q = (v - min) / step;
        assert(step * q == v - min) by (nonlinear_arith)
            requires
                (v - min) % step == 0,
                step > 0,
                q == (v - min) / step,
        ;
        assert((2 * (v - min) + step) / (2 * step) == q) by (nonlinear_arith)
            requires
                step * q == v - min,
                step > 0,
        ;
    }
    if v >= max {
        let q = (max - min) / step;
        assert(step * q == max - min) by (nonlinear_arith)
            requires
                (max - min) % step == 0,
                step > 0,
                q == (max - min) / step,
        ;
        assert((2 * (max - min) + step) / (2 * step) == q) by (nonlinear_arith)
            requires
                step * q == max - min,
                step > 0,
        ;
    }
    if v <= min {
        assert(c == min);
        assert(k == 0) by (nonlinear_arith)
            requires
                k == (2 * (c - min) + step) / (2 * step),
                c == min,
                step > 0,
        ;
    }
}

proof fn lemma_slider_runs_over(s: Setting, min: int, max: int, step: int)
    requires
        slider_range(s) matches Some((lo, hi, st)) && lo == min && hi == max && st == step,
        0 <= min < max,
        step > 0,
    ensures
        forall|v: int| min <= v <= max && (v - min) % step == 0 ==> #[trigger] snapped(s, v) == v,
        forall|v: int| v >= max ==> #[trigger] snapped(s, v) == max,
        forall|v: int| v <= min ==> #[trigger] snapped(s, v) == min,
{
    lemma_sliders_step_evenly(s);
    assert forall|v: int| #[trigger] snapped(s, v) == snapped(s, v) implies {
        &&& min <= v <= max && (v - min) % step == 0 ==> snapped(s, v) == v
        &&& v >= max ==> snapped(s, v) == max
        &&& v <= min ==> snapped(s, v) == min
    } by {
        lemma_slider_at(s, min, max, step, v);
    }
}

/// The sliders' ranges and steps, in hundredths of the displayed value:
/// sensitivity 0.50 to 10.00 by 0.05, aim-down-sights multiplier 0.20x to
/// 1.50x by 0.05, build multiplier 0.30x to 2.00x by 0.05, field of view 60
/// to 90 by 1, camera shake and volume 0% to 100% by 5%. Every value on a
/// slider's steps within its range is kept as set, and values past either
/// end go to that end.
pub proof fn lemma_slider_ranges()
    ensures
        forall|v: int| 50 <= v <= 1000 && (v - 50) % 5 == 0 ==> #[trigger] snapped(Setting::Sensitivity, v) == v,
        forall|v: int| v >= 1000 ==> #[trigger] snapped(Setting::Sensitivity, v) == 1000,
        forall|v: int| v <= 50 ==> #[trigger] snapped(Setting::Sensitivity, v) == 50,
        forall|v: int| 20 <= v <= 150 && (v - 20) % 5 == 0 ==> #[trigger] snapped(Setting::AdsMultiplier, v) == v,
        forall|v: int| v >= 150 ==> #[trigger] snapped(Setting::AdsMultiplier, v) == 150,
        forall|v: int| v <= 20 ==> #[trigger] snapped(Setting::AdsMultiplier, v) == 20,
        forall|v: int| 30 <= v <= 200 && (v - 30) % 5 == 0 ==> #[trigger] snapped(Setting::BuildMultiplier, v) == v,
        forall|v: int| v >= 200 ==> #[trigger] snapped(Setting::BuildMultiplier, v) == 200,
        forall|v: int| v <= 30 ==> #[trigger] snapped(Setting::BuildMultiplier, v) == 30,
        forall|v: int| 6000 <= v <= 9000 && (v - 6000) % 100 == 0 ==> #[trigger] snapped(Setting::Fov, v) == v,
        forall|v: int| v >= 9000 ==> #[trigger] snapped(Setting::Fov, v) == 9000,
        forall|v: int| v <= 6000 ==> #[trigger] snapped(Setting::Fov, v) == 6000,
        forall|v: int| 0 <= v <= 100 && v % 5 == 0 ==> #[trigger] snapped(Setting::CameraShake, v) == v,
        forall|v: int| v >= 100 ==> #[trigger] snapped(Setting::CameraShake, v) == 100,
        forall|v: int| v <= 0 ==> #[trigger] snapped(Setting::CameraShake, v) == 0,
        forall|v: int| 0 <= v <= 100 && v % 5 == 0 ==> #[trigger] snapped(Setting::Volume, v) == v,
        forall|v: int| v >= 100 ==> #[trigger] snapped(Setting::Volume, v) == 100,
        forall|v: int| v <= 0 ==> #[trigger] snapped(Setting::Volume, v) == 0,
{
    lemma_slider_runs_over(Setting::Sensitivity, 50, 1000, 5);
    lemma_slider_runs_over(Setting::AdsMultiplier, 20, 150, 5);
    lemma_slider_runs_over(Setting::BuildMultiplier, 30, 200, 5);
    lemma_slider_runs_over(Setting::Fov, 6000, 9000, 100);
    lemma_slider_runs_over(Setting::CameraShake, 0, 100, 5);
    lemma_slider_runs_over(Setting::Volume, 0, 100, 5);
}

/// F4 on the panel state: (panel open, resume on close) and the game state
/// give the new panel state and what the game is asked to do.
pub open spec fn toggle_model(panel_open: bool, resume: bool, state: AppState) -> (
    bool,
    bool,
    MenuRequest,
) {
    if panel_open {
        (
            false,
            resume,
            if resume && state == AppState::Paused {
                MenuRequest::Enter(AppState::Playing)
            } else {
                MenuRequest::Nothing
            },
        )
    } else {
        (
            true,
            state == AppState::Playing,
            if state == AppState::Playing {
                MenuRequest::Enter(AppState::Paused)
            } else {
                MenuRequest::Nothing
            },
        )
    }
}

/// F4 from play pauses; F4 again (now paused) closes the panel and resumes
/// play. Opened from the pause menu instead, closing it leaves the game paused.
pub proof fn lemma_panel_round_trip(resume: bool)
    ensures
        ({
            let (o1, r1, q1) = toggle_model(false, resume, AppState::Playing);
            let (o2, r2, q2) = toggle_model(o1, r1, AppState::Paused);
            &&& q1 == MenuRequest::Enter(AppState::Paused)
            &&& q2 == MenuRequest::Enter(AppState::Playing)
            &&& !o2
        }),
        ({
            let (o1, r1, q1) = toggle_model(false, resume, AppState::Paused);
            let (o2, r2, q2) = toggle_model(o1, r1, AppState::Paused);
            &&& q1 == MenuRequest::Nothing
            &&& q2 == MenuRequest::Nothing
            &&& !o2
        }),
{
}

/// Which parts of the pause menu show.
#[derive(Debug, Clone, Copy, PartialEq, Eq, Structural)]
pub struct MenuLayout {
    /// The whole menu.
    pub root_visible: bool,
    /// The main card (Resume, Settings, Quit); hidden pages take no space.
    pub main_card: bool,
    /// The settings card.
    pub settings_card: bool,
}

impl MenuState {
    /// The menu's layout for its current state.
    pub fn layout(&self) -> (r: MenuLayout)
        ensures
            r.root_visible == (self.menu_open && !self.panel_open),
            r.main_card == (self.page == MenuPage::Main),
            r.settings_card == (self.page == MenuPage::Settings),
    {
        MenuLayout {
            root_visible: self.menu_visible(),
            main_card: self.page == MenuPage::Main,
            settings_card: self.page == MenuPage::Settings,
        }
    }
}

/// Nanoseconds after the last change before settings are written.
pub const AUTOSAVE_DELAY_NS: u64 = 1_000_000_000;

/// One `fire` on a pending change made at `pending` (if any): (pending after,
/// fired).
pub open spec fn fire_model(pending: Option<u64>, now: u64, delay: u64) -> (Option<u64>, bool) {
    match pending {
        Some(t) => if now >= t + delay {
            (None, true)
        } else {
            (pending, false)
        },
        None => (None, false),
    }
}

/// Fires once, `delay` after the latest [`Debounce::touch`] (times in
/// nanoseconds).
#[derive(Debug, Clone, Default, PartialEq, Eq)]
pub struct Debounce {
    pending_since: Option<u64>,
}

impl Debounce {
    /// When the pending change was made, if one is pending.
    pub closed spec fn pending(self) -> Option<u64> {
        self.pending_since
    }

    pub fn new() -> (r: Self)
        ensures
            r.pending() is None,
    {
        Debounce { pending_since: None }
    }

    /// A change at `now`: the quiet period starts over.
    pub fn touch(&mut self, now: u64)
        ensures
            final(self).pending() == Some(now),
    {
        self.pending_since = Some(now);
    }

    pub fn is_pending(&self) -> (r: bool)
        ensures
            r == self.pending() is Some,
    {
        self.pending_since.is_some()
    }

    /// True once when the quiet period has passed; clears the pending change.
    pub fn fire(&mut self, now: u64, delay: u64) -> (r: bool)
        ensures
            (final(self).pending(), r) == fire_model(old(self).pending(), now, delay),
    {
        match self.pending_since {
            Some(t) => {
                if now >= t && now - t >= delay {
                    self.pending_since = None;
                    true
                } else {
                    false
                }
            },
            None => false,
        }
    }

    /// Clears and reports any pending change (for flushing on exit).
    pub fn take(&mut self) -> (r: bool)
        ensures
            r == old(self).pending() is Some,
            final(self).pending() is None,
    {
        let was: bool = self.pending_since.is_some();
        self.pending_since = None;
        was
    }
}

/// A debounce fires once per change: after it fired, it stays quiet until
/// the next touch; and a touch restarts the quiet period.
pub proof fn lemma_debounce_fires_once(pending: Option<u64>, t: u64, now1: u64, now2: u64, delay: u64)
    ensures
        fire_model(pending, now1, delay).1 ==> !fire_model(
            fire_model(pending, now1, delay).0,
            now2,
            delay,
        ).1,
        now2 < t + delay ==> !fire_model(Some(t), now2, delay).1,
        now2 >= t + delay ==> fire_model(Some(t), now2, delay) == (None::<u64>, true),
{
}

/// What the autosave does this frame.
#[derive(Debug, Clone, Copy, PartialEq, Eq, Structural)]
pub enum SaveAction {
    /// Nothing to write.
    Keep,
    /// Write the settings now (in the background unless the game is exiting)
    /// and remember them as saved.
    Write { background: bool },
}

/// The autosave's bookkeeping; the settings last written stay with the
/// caller, which says each frame whether the current ones differ.
#[derive(Debug, Clone, Default, PartialEq, Eq)]
pub struct Autosave {
    pub debounce: Debounce,
    /// Set by the tuning panel's "Save now".
    pub save_now: bool,
}

impl Autosave {
    /// One frame of the autosave at `now` (nanoseconds): `in_scenario` (scenario
    /// runs tweak settings for their scripts and never save), `changed` (the
    /// settings were touched this frame), `differs` (they differ from the ones
    /// last written), `exiting` (the game is quitting: a pending change is
    /// flushed right away).
    pub fn frame(&mut self, in_scenario: bool, changed: bool, differs: bool, exiting: bool, now: u64) -> (r:
        SaveAction)
        ensures
            in_scenario ==> r == SaveAction::Keep && *final(self) == *old(self),
            !in_scenario ==> {
                let p0 = if changed && differs {
                    Some(now)
                } else {
                    old(self).debounce.pending()
                };
                let (p1, fired) = fire_model(p0, now, AUTOSAVE_DELAY_NS);
                let due = fired || old(self).save_now;
                let save_now = if fired {
                    old(self).save_now
                } else {
                    false
                };
                let flush = exiting && p1 is Some;
                let p2 = if exiting {
                    None
                } else {
                    p1
                };
                &&& final(self).debounce.pending() == p2
                &&& final(self).save_now == save_now
                &&& r == if (due || flush) && differs {
                    SaveAction::Write { background: !exiting }
                } else {
                    SaveAction::Keep
                }
            },
            !differs ==> r == SaveAction::Keep,
    {
        if in_scenario {
            return SaveAction::Keep;
        }
        if changed && differs {
            self.debounce.touch(now);
        }
        let fired: bool = self.debounce.fire(now, AUTOSAVE_DELAY_NS);
        let due: bool = if fired {
            true
        } else {
            let asked: bool = self.save_now;
            self.save_now = false;
            asked
        };
        let flush: bool = if exiting {
            self.debounce.take()
        } else {
            false
        };
        if (due || flush) && differs {
            SaveAction::Write { background: !exiting }
        } else {
            SaveAction::Keep
        }
    }
}

/// How the window is shown.
#[derive(Debug, Clone, Copy, PartialEq, Eq, Structural)]
pub enum WindowMode {
    BorderlessFullscreen,
    Windowed,
}

/// What to change on the live window.
#[derive(Debug, Clone, Copy, PartialEq, Eq, Structural)]
pub struct WindowChanges {
    pub mode: Option<WindowMode>,
    pub present_mode: Option<PresentMode>,
}

/// Live window settings: compares the graphics settings (fullscreen, vsync)
/// with those of the last frame (`last`, which it updates). The first frame
/// changes nothing: the window was created from these settings.
pub fn window_changes(last: &mut Option<(bool, bool)>, fullscreen: bool, vsync: bool) -> (r:
    WindowChanges)
    ensures
        *final(last) == Some((fullscreen, vsync)),
        match *old(last) {
            None => r == (WindowChanges { mode: None, present_mode: None }),
            Some((was_fullscreen, was_vsync)) => {
                &&& r.mode == if was_fullscreen == fullscreen {
                    None
                } else if fullscreen {
                    Some(WindowMode::BorderlessFullscreen)
                } else {
                    Some(WindowMode::Windowed)
                }
                &&& r.present_mode == if was_vsync == vsync {
                    None
                } else if vsync {
                    Some(PresentMode::Fifo)
                } else {
                    Some(PresentMode::AutoNoVsync)
                }
            },
        },
{
    let previous: Option<(bool, bool)> = *last;
    *last = Some((fullscreen, vsync));
    match previous {
        None => WindowChanges { mode: None, present_mode: None },
        Some((was_fullscreen, was_vsync)) => {
            let mode = if was_fullscreen == fullscreen {
                None
            } else if fullscreen {
                Some(WindowMode::BorderlessFullscreen)
            } else {
                Some(WindowMode::Windowed)
            };
            let present_mode = if was_vsync == vsync {
                None
            } else if vsync {
                Some(PresentMode::Fifo)
            } else {
                Some(PresentMode::AutoNoVsync)
            };
            WindowChanges { mode, present_mode }
        },
    }
}

} // verus!
