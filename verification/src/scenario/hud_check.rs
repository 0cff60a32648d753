//! The `hud_check` session's phases: a scripted fight that captures the HUD
//! and the menus (shield and body hits, a headshot, the kill marker, a reload,
//! the pump reticle, build mode, a damaged wall, the pause menu, the settings
//! page and the tuning panel).
//!
//! The script advances on game events (hits, the kill) as well as on time in
//! each phase, so it captures the same moments on a slow machine. Times are
//! milliseconds of the scenario clock. Each frame the host reports the combat
//! counters; [`HudCheck::update`] says what to aim at, what the trigger does,
//! what to select, which menus show and what to capture, and the host does it.
use crate::scenario::DirectorStatus;
use crate::shared::{ActiveTool, PieceKind, WeaponKind};
use vstd::prelude::*;

verus! {

#[derive(Debug, Clone, Copy, PartialEq, Eq, Structural)]
pub enum HudPhase {
    Setup,
    Fight,
    Reload,
    Pump,
    Build,
    Piece,
    Pause,
    Settings,
    Panel,
    Done,
}

/// A screenshot the session takes (once each).
#[derive(Debug, Clone, Copy, PartialEq, Eq, Structural)]
pub enum HudShot {
    FightShield,
    Fight,
    Headshot,
    Kill,
    Reload,
    Pump,
    Build,
    Piece,
    MenuPause,
    MenuSettings,
    TuningPanel,
}

impl HudShot {
    /// The capture's file stem.
    pub fn name(self) -> (r: &'static str)
        ensures
            r@ == shot_name(self),
    {
        match self {
            HudShot::FightShield => "hud-fight-shield",
            HudShot::Fight => "hud-fight",
            HudShot::Headshot => "hud-headshot",
            HudShot::Kill => "hud-kill",
            HudShot::Reload => "hud-reload",
            HudShot::Pump => "hud-pump",
            HudShot::Build => "hud-build",
            HudShot::Piece => "hud-piece",
            HudShot::MenuPause => "menu-pause",
            HudShot::MenuSettings => "menu-settings",
            HudShot::TuningPanel => "tuning-panel",
        }
    }
}

/// A capture's file stem.
pub open spec fn shot_name(s: HudShot) -> Seq<char> {
    match s {
        HudShot::FightShield => "hud-fight-shield"@,
        HudShot::Fight => "hud-fight"@,
        HudShot::Headshot => "hud-headshot"@,
        HudShot::Kill => "hud-kill"@,
        HudShot::Reload => "hud-reload"@,
        HudShot::Pump => "hud-pump"@,
        HudShot::Build => "hud-build"@,
        HudShot::Piece => "hud-piece"@,
        HudShot::MenuPause => "menu-pause"@,
        HudShot::MenuSettings => "menu-settings"@,
        HudShot::TuningPanel => "tuning-panel"@,
    }
}

/// The combat counters the host reads each frame, and whether the dummy
/// still has shield.
#[derive(Debug, Clone, Copy, PartialEq, Eq, Structural, Default)]
pub struct HudEvent {
    pub shield_up: bool,
    pub hits: u32,
    pub headshots: u32,
    pub eliminations: u32,
}

/// Where the player looks this frame.
#[derive(Debug, Clone, Copy, PartialEq, Eq, Structural)]
pub enum HudAim {
    /// Wherever the view already is.
    Keep,
    /// At the dummy: its body while it has shield, else its head.
    Dummy { head: bool },
    /// Down in front of the player, where the build ghost shows.
    BuildSpot,
    /// At the wall just placed.
    Wall,
}

/// What the trigger does this frame.
#[derive(Debug, Clone, Copy, PartialEq, Eq, Structural)]
pub enum Trigger {
    Untouched,
    /// Held (with a fresh press when it starts) or released.
    Hold(bool),
    /// Pressed and held to place a piece.
    Press,
}

/// What the menus show this frame.
#[derive(Debug, Clone, Copy, PartialEq, Eq, Structural)]
pub enum MenuCue {
    Untouched,
    /// The pause menu, on its main page.
    ShowMain,
    /// The settings page.
    ShowSettings,
    /// The tuning panel over the menu.
    OpenPanel,
    /// Panel and menu closed.
    CloseAll,
}

/// The session's state, as values.
pub ghost struct HudView {
    pub phase: HudPhase,
    /// When the current phase began (ms).
    pub since: u64,
    /// Captures taken, in order.
    pub captured: Seq<HudShot>,
    /// When the kill was seen (ms).
    pub kill_at: Option<u64>,
    /// The wall has been placed.
    pub wall_placed: bool,
}

/// Milliseconds spent in the current phase (negative if the clock went
/// back).
pub open spec fn in_phase(v: HudView, now: u64) -> int {
    now - v.since
}

/// `c` with `s` captured, unless it already was.
pub open spec fn once(c: Seq<HudShot>, b: bool, s: HudShot) -> Seq<HudShot> {
    if b && !c.contains(s) {
        c.push(s)
    } else {
        c
    }
}

/// The kill time after this frame's counters.
pub open spec fn kill_seen(v: HudView, now: u64, e: HudEvent) -> Option<u64> {
    if v.kill_at is None && e.eliminations > 0 {
        Some(now)
    } else {
        v.kill_at
    }
}

/// The kill marker has been on screen long enough (30 ms) to capture.
pub open spec fn kill_shown(v: HudView, now: u64, e: HudEvent) -> bool {
    kill_seen(v, now, e) matches Some(k) && now >= k + 30
}

/// The captures after this frame.
pub open spec fn hud_captured(v: HudView, now: u64, e: HudEvent) -> Seq<HudShot> {
    let dt = in_phase(v, now);
    let c = v.captured;
    match v.phase {
        HudPhase::Fight => {
            let c1 = once(c, e.hits >= 2, HudShot::FightShield);
            let c2 = once(c1, !e.shield_up && e.hits >= 5, HudShot::Fight);
            let c3 = once(c2, e.headshots >= 1, HudShot::Headshot);
            once(c3, kill_shown(v, now, e), HudShot::Kill)
        },
        HudPhase::Reload => once(c, dt >= 900, HudShot::Reload),
        HudPhase::Pump => once(c, dt >= 600, HudShot::Pump),
        HudPhase::Build => once(c, dt >= 500, HudShot::Build),
        HudPhase::Piece => once(c, dt >= 1400, HudShot::Piece),
        HudPhase::Pause => once(c, dt >= 400, HudShot::MenuPause),
        HudPhase::Settings => once(c, dt >= 400, HudShot::MenuSettings),
        HudPhase::Panel => once(c, dt >= 500, HudShot::TuningPanel),
        _ => c,
    }
}

/// The phase entered this frame, if any.
pub open spec fn hud_next_phase(v: HudView, now: u64, e: HudEvent) -> Option<HudPhase> {
    let dt = in_phase(v, now);
    match v.phase {
        HudPhase::Setup => Some(HudPhase::Fight),
        HudPhase::Fight => if kill_shown(v, now, e) || dt >= 8000 {
            Some(HudPhase::Reload)
        } else {
            None
        },
        HudPhase::Reload => if dt >= 2400 {
            Some(HudPhase::Pump)
        } else {
            None
        },
        HudPhase::Pump => if dt >= 600 {
            Some(HudPhase::Build)
        } else {
            None
        },
        HudPhase::Build => if dt >= 900 {
            Some(HudPhase::Piece)
        } else {
            None
        },
        HudPhase::Piece => if dt >= 1400 {
            Some(HudPhase::Pause)
        } else {
            None
        },
        HudPhase::Pause => if dt >= 400 {
            Some(HudPhase::Settings)
        } else {
            None
        },
        HudPhase::Settings => if dt >= 400 {
            Some(HudPhase::Panel)
        } else {
            None
        },
        HudPhase::Panel => if dt >= 800 {
            Some(HudPhase::Done)
        } else {
            None
        },
        HudPhase::Done => None,
    }
}

/// The session after the frame at `now` in which the host saw `e`.
pub open spec fn hud_next(v: HudView, now: u64, e: HudEvent) -> HudView {
    let placed = v.wall_placed || (v.phase == HudPhase::Build && in_phase(v, now) >= 600);
    let kill = if v.phase == HudPhase::Fight {
        kill_seen(v, now, e)
    } else {
        v.kill_at
    };
    let captured = hud_captured(v, now, e);
    match hud_next_phase(v, now, e) {
        Some(p) => HudView { phase: p, since: now, captured, kill_at: kill, wall_placed: placed },
        None => HudView { captured, kill_at: kill, wall_placed: placed, ..v },
    }
}

/// What the trigger does this frame.
pub open spec fn hud_trigger(v: HudView, now: u64) -> Trigger {
    let dt = in_phase(v, now);
    match v.phase {
        HudPhase::Fight => Trigger::Hold(dt > 800 && v.kill_at is None && dt < 8000),
        HudPhase::Reload | HudPhase::Pause => Trigger::Hold(false),
        HudPhase::Build => if dt >= 600 && !v.wall_placed {
            Trigger::Press
        } else if v.wall_placed {
            Trigger::Hold(false)
        } else {
            Trigger::Untouched
        },
        HudPhase::Piece => Trigger::Hold(500 <= dt < 1000),
        _ => Trigger::Untouched,
    }
}

/// Where the player looks this frame.
pub open spec fn hud_aim(v: HudView, e: HudEvent) -> HudAim {
    match v.phase {
        HudPhase::Fight => HudAim::Dummy { head: !e.shield_up },
        HudPhase::Build => HudAim::BuildSpot,
        HudPhase::Piece => if v.wall_placed {
            HudAim::Wall
        } else {
            HudAim::Keep
        },
        _ => HudAim::Keep,
    }
}

/// The tool selected this frame.
pub open spec fn hud_select(v: HudView, now: u64, e: HudEvent) -> Option<ActiveTool> {
    match hud_next_phase(v, now, e) {
        Some(HudPhase::Pump) => Some(ActiveTool::Weapon(WeaponKind::Pump)),
        Some(HudPhase::Build) => Some(ActiveTool::Build(PieceKind::Wall)),
        Some(HudPhase::Piece) => Some(ActiveTool::Weapon(WeaponKind::Rifle)),
        _ => None,
    }
}

/// What the menus show this frame.
pub open spec fn hud_menu(v: HudView, now: u64) -> MenuCue {
    let dt = in_phase(v, now);
    match v.phase {
        HudPhase::Pause => MenuCue::ShowMain,
        HudPhase::Settings => MenuCue::ShowSettings,
        HudPhase::Panel => if dt >= 800 {
            MenuCue::CloseAll
        } else {
            MenuCue::OpenPanel
        },
        _ => MenuCue::Untouched,
    }
}

/// What the session asks of the host this frame.
#[derive(Debug, Clone, PartialEq, Eq)]
pub struct HudFrame {
    /// Set the fight up: the dummy stands still in front of the player, the
    /// performance overlay shows.
    pub setup: bool,
    pub aim: HudAim,
    pub trigger: Trigger,
    /// Press reload.
    pub reload: bool,
    pub select: Option<ActiveTool>,
    /// Step back from the new wall.
    pub step_back: bool,
    pub menu: MenuCue,
    /// Captures to take now, in order.
    pub captures: Vec<HudShot>,
    pub status: DirectorStatus,
}

/// The session's phases and what they have captured.
#[derive(Debug, Clone)]
pub struct HudCheck {
    phase: HudPhase,
    since: u64,
    captured: Vec<HudShot>,
    kill_at: Option<u64>,
    wall_placed: bool,
}

impl View for HudCheck {
    type V = HudView;

    closed spec fn view(&self) -> HudView {
        HudView {
            phase: self.phase,
            since: self.since,
            captured: self.captured@,
            kill_at: self.kill_at,
            wall_placed: self.wall_placed,
        }
    }
}

impl HudCheck {
    /// The session before its first frame (its clock at 0).
    pub fn new() -> (r: Self)
        ensures
            r@ == (HudView {
                phase: HudPhase::Setup,
                since: 0,
                captured: Seq::empty(),
                kill_at: None,
                wall_placed: false,
            }),
    {
        HudCheck {
            phase: HudPhase::Setup,
            since: 0,
            captured: Vec::new(),
            kill_at: None,
            wall_placed: false,
        }
    }

    pub fn phase(&self) -> (r: HudPhase)
        ensures
            r == self@.phase,
    {
        self.phase
    }

    /// The captures taken so far, in order.
    pub fn captured(&self) -> (r: &[HudShot])
        ensures
            r@ == self@.captured,
    {
        self.captured.as_slice()
    }

    /// When the kill was seen (ms), if it was.
    pub fn kill_at(&self) -> (r: Option<u64>)
        ensures
            r == self@.kill_at,
    {
        self.kill_at
    }

    /// Captures `s` unless it was before, when `b`.
    fn capture_once(&mut self, b: bool, s: HudShot, taken: &mut Vec<HudShot>)
        ensures
            final(self)@ == (HudView { captured: once(old(self)@.captured, b, s), ..old(self)@ }),
            final(taken)@ == if b && !old(self)@.captured.contains(s) {
                old(taken)@.push(s)
            } else {
                old(taken)@
            },
    {
        if !b {
            return;
        }
        let mut i: usize = 0;
        while i < self.captured.len()
            invariant
                i <= self.captured@.len(),
                forall|j: int| 0 <= j < i ==> self.captured@[j] != s,
            decreases self.captured@.len() - i,
        {
            if self.captured[i] == s {
                assert(self.captured@.contains(s));
                return;
            }
            i = i + 1;
        }
        self.captured.push(s);
        taken.push(s);
    }

    /// One frame at `now` (ms) in which the host read `e`.
    pub fn update(&mut self, now: u64, e: &HudEvent) -> (r: HudFrame)
        ensures
            final(self)@ == hud_next(old(self)@, now, *e),
            r.setup == (old(self)@.phase == HudPhase::Setup),
            r.aim == hud_aim(old(self)@, *e),
            r.trigger == hud_trigger(old(self)@, now),
            r.reload == (old(self)@.phase == HudPhase::Reload && in_phase(old(self)@, now) < 50),
            r.select == hud_select(old(self)@, now, *e),
            r.step_back == (old(self)@.phase == HudPhase::Build && in_phase(old(self)@, now)
                >= 900),
            r.menu == hud_menu(old(self)@, now),
            old(self)@.captured + r.captures@ == final(self)@.captured,
            r.status == if old(self)@.phase == HudPhase::Done && in_phase(old(self)@, now) >= 300 {
                DirectorStatus::Done
            } else {
                DirectorStatus::Running
            },
    {
        let ghost v = self@;
        let dt: i128 = now as i128 - self.since as i128;
        let mut taken: Vec<HudShot> = Vec::new();
        let mut next: Option<HudPhase> = None;
        let mut frame = HudFrame {
            setup: false,
            aim: HudAim::Keep,
            trigger: Trigger::Untouched,
            reload: false,
            select: None,
            step_back: false,
            menu: MenuCue::Untouched,
            captures: Vec::new(),
            status: DirectorStatus::Running,
        };
        match self.phase {
            HudPhase::Setup => {
                frame.setup = true;
                next = Some(HudPhase::Fight);
            },
            HudPhase::Fight => {
                frame.aim = HudAim::Dummy { head: !e.shield_up };
                frame.trigger = Trigger::Hold(dt > 800 && self.kill_at.is_none() && dt < 8000);
                self.capture_once(e.hits >= 2, HudShot::FightShield, &mut taken);
                self.capture_once(!e.shield_up && e.hits >= 5, HudShot::Fight, &mut taken);
                self.capture_once(e.headshots >= 1, HudShot::Headshot, &mut taken);
                if self.kill_at.is_none() && e.eliminations > 0 {
                    self.kill_at = Some(now);
                }
                let shown: bool = match self.kill_at {
                    Some(k) => now as u128 >= k as u128 + 30,
                    None => false,
                };
                self.capture_once(shown, HudShot::Kill, &mut taken);
                if shown || dt >= 8000 {
                    next = Some(HudPhase::Reload);
                }
            },
            HudPhase::Reload => {
                frame.trigger = Trigger::Hold(false);
                frame.reload = dt < 50;
                self.capture_once(dt >= 900, HudShot::Reload, &mut taken);
                if dt >= 2400 {
                    frame.select = Some(ActiveTool::Weapon(WeaponKind::Pump));
                    next = Some(HudPhase::Pump);
                }
            },
            HudPhase::Pump => {
                self.capture_once(dt >= 600, HudShot::Pump, &mut taken);
                if dt >= 600 {
                    frame.select = Some(ActiveTool::Build(PieceKind::Wall));
                    next = Some(HudPhase::Build);
                }
            },
            HudPhase::Build => {
                frame.aim = HudAim::BuildSpot;
                self.capture_once(dt >= 500, HudShot::Build, &mut taken);
                if dt >= 600 && !self.wall_placed {
                    self.wall_placed = true;
                    frame.trigger = Trigger::Press;
                } else if self.wall_placed {
                    frame.trigger = Trigger::Hold(false);
                }
                if dt >= 900 {
                    frame.step_back = true;
                    frame.select = Some(ActiveTool::Weapon(WeaponKind::Rifle));
                    next = Some(HudPhase::Piece);
                }
            },
            HudPhase::Piece => {
                if self.wall_placed {
                    frame.aim = HudAim::Wall;
                }
                frame.trigger = Trigger::Hold(500 <= dt && dt < 1000);
                self.capture_once(dt >= 1400, HudShot::Piece, &mut taken);
                if dt >= 1400 {
                    next = Some(HudPhase::Pause);
                }
            },
            HudPhase::Pause => {
                frame.trigger = Trigger::Hold(false);
                frame.menu = MenuCue::ShowMain;
                self.capture_once(dt >= 400, HudShot::MenuPause, &mut taken);
                if dt >= 400 {
                    next = Some(HudPhase::Settings);
                }
            },
            HudPhase::Settings => {
                frame.menu = MenuCue::ShowSettings;
                self.capture_once(dt >= 400, HudShot::MenuSettings, &mut taken);
                if dt >= 400 {
                    next = Some(HudPhase::Panel);
                }
            },
            HudPhase::Panel => {
                frame.menu = if dt >= 800 {
                    MenuCue::CloseAll
                } else {
                    MenuCue::OpenPanel
                };
                self.capture_once(dt >= 500, HudShot::TuningPanel, &mut taken);
                if dt >= 800 {
                    next = Some(HudPhase::Done);
                }
            },
            HudPhase::Done => {
                if dt >= 300 {
                    frame.status = DirectorStatus::Done;
                }
            },
        }
        if let Some(p) = next {
            self.phase = p;
            self.since = now;
        }
        proof {
            assert(v.captured + taken@ =~= self@.captured);
        }
        frame.captures = taken;
        frame
    }
}

proof fn lemma_once(c0: Seq<HudShot>, b: bool, x: HudShot)
    requires
        c0.no_duplicates(),
    ensures
        once(c0, b, x).no_duplicates(),
        forall|y: HudShot| c0.contains(y) ==> #[trigger] once(c0, b, x).contains(y),
{
    if b && !c0.contains(x) {
        let d = c0.push(x);
        assert forall|i: int, j: int| 0 <= i < d.len() && 0 <= j < d.len() && i != j implies d[i]
            != d[j] by {
            if i < c0.len() && j < c0.len() {
            } else if i == c0.len() {
                assert(c0[j] == d[j]);
            } else {
                assert(c0[i] == d[i]);
            }
        }
        assert forall|y: HudShot| c0.contains(y) implies #[trigger] d.contains(y) by {
            let k = choose|k: int| 0 <= k < c0.len() && c0[k] == y;
            assert(d[k] == y);
        }
    }
}

/// Every capture is taken at most once, and what was captured stays
/// captured.
pub proof fn lemma_hud_captures_once(v: HudView, now: u64, e: HudEvent, s: HudShot)
    requires
        v.captured.no_duplicates(),
    ensures
        hud_next(v, now, e).captured.no_duplicates(),
        v.captured.contains(s) ==> hud_next(v, now, e).captured.contains(s),
{
    let dt = in_phase(v, now);
    let c = v.captured;
    match v.phase {
        HudPhase::Fight => {
            let c1 = once(c, e.hits >= 2, HudShot::FightShield);
            let c2 = once(c1, !e.shield_up && e.hits >= 5, HudShot::Fight);
            let c3 = once(c2, e.headshots >= 1, HudShot::Headshot);
            lemma_once(c, e.hits >= 2, HudShot::FightShield);
            lemma_once(c1, !e.shield_up && e.hits >= 5, HudShot::Fight);
            lemma_once(c2, e.headshots >= 1, HudShot::Headshot);
            lemma_once(c3, kill_shown(v, now, e), HudShot::Kill);
        },
        HudPhase::Reload => lemma_once(c, dt >= 900, HudShot::Reload),
        HudPhase::Pump => lemma_once(c, dt >= 600, HudShot::Pump),
        HudPhase::Build => lemma_once(c, dt >= 500, HudShot::Build),
        HudPhase::Piece => lemma_once(c, dt >= 1400, HudShot::Piece),
        HudPhase::Pause => lemma_once(c, dt >= 400, HudShot::MenuPause),
        HudPhase::Settings => lemma_once(c, dt >= 400, HudShot::MenuSettings),
        HudPhase::Panel => lemma_once(c, dt >= 500, HudShot::TuningPanel),
        _ => {},
    }
}

/// The session only moves forward through its phases (setup, fight, reload,
/// pump, build, piece, pause, settings, panel, done), and a phase always
/// ends once its time is up, whatever the fight does: the fight itself after
/// 8 s at the latest.
pub proof fn lemma_hud_moves_forward(v: HudView, now: u64, e: HudEvent)
    ensures
        hud_next_phase(v, now, e) matches Some(p) ==> hud_rank(p) == hud_rank(v.phase) + 1,
        (v.phase != HudPhase::Done && in_phase(v, now) >= 8000) ==> hud_next_phase(v, now, e)
            is Some,
{
}

/// A phase's place in the session.
pub open spec fn hud_rank(p: HudPhase) -> int {
    match p {
        HudPhase::Setup => 0,
        HudPhase::Fight => 1,
        HudPhase::Reload => 2,
        HudPhase::Pump => 3,
        HudPhase::Build => 4,
        HudPhase::Piece => 5,
        HudPhase::Pause => 6,
        HudPhase::Settings => 7,
        HudPhase::Panel => 8,
        HudPhase::Done => 9,
    }
}

} // verus!
