//! The `fx_check` session's timeline: a scripted tour of the viewmodel and
//! effects, captured mid-action — rifle fire, rifle ADS, the rifle reload, a
//! pump blast at the dummy, the pump rack and reload, wood chips and a piece
//! break, an elimination, and build mode with the gun lowered.
//!
//! Times are milliseconds of the scenario clock. Each frame the host reports
//! whether the held rifle fires on this frame's tick and whether the dummy is
//! down; [`FxCheck::update`] lists, in order, what to do in the world and what
//! to capture. Each step of the timeline happens once, on the first frame at
//! or after its time; some captures are taken a given number of frames later.
use crate::scenario::DirectorStatus;
use crate::shared::{ActiveTool, PieceKind, WeaponKind};
use vstd::prelude::*;

verus! {

/// The session ends at this time (ms).
pub const FX_END_MS: u64 = 13_800;

/// A one-time step of the timeline.
#[derive(Debug, Clone, Copy, PartialEq, Eq, Structural)]
pub enum FxKey {
    Setup,
    Hip,
    RifleFire,
    Release1,
    AdsOn,
    AdsStill,
    AdsFire,
    Release2,
    Reload,
    ReloadA,
    ReloadB,
    PumpSetup,
    SwitchMid,
    PumpFire,
    PumpReload,
    PumpReloadSnap,
    WallSetup,
    Chips,
    Release3,
    Break,
    ElimSetup,
    Build,
    BuildMid,
    BuildSnap,
}

/// A capture of the tour.
#[derive(Debug, Clone, Copy, PartialEq, Eq, Structural)]
pub enum FxShot {
    HipIdle,
    RifleFire,
    RifleFireAfter,
    RifleAds,
    RifleAdsFire,
    ReloadDrop,
    ReloadInsert,
    SwitchMid,
    PumpBlast,
    PumpBlastAfter,
    PumpRack,
    PumpReload,
    PieceHits,
    PieceBreakA,
    PieceBreakB,
    PieceBreakC,
    ElimA,
    ElimB,
    ElimC,
    ToBuildMid,
    BuildMode,
}

/// A capture's file stem.
pub open spec fn fx_shot_name(s: FxShot) -> Seq<char> {
    match s {
        FxShot::HipIdle => "01_hip_idle"@,
        FxShot::RifleFire => "02_rifle_fire"@,
        FxShot::RifleFireAfter => "02b_rifle_fire_after"@,
        FxShot::RifleAds => "03_rifle_ads"@,
        FxShot::RifleAdsFire => "03b_rifle_ads_fire"@,
        FxShot::ReloadDrop => "04_rifle_reload_drop"@,
        FxShot::ReloadInsert => "04b_rifle_reload_insert"@,
        FxShot::SwitchMid => "05_switch_mid"@,
        FxShot::PumpBlast => "06_pump_blast"@,
        FxShot::PumpBlastAfter => "06b_pump_blast_after"@,
        FxShot::PumpRack => "07_pump_rack"@,
        FxShot::PumpReload => "08_pump_reload"@,
        FxShot::PieceHits => "09_piece_hits"@,
        FxShot::PieceBreakA => "10_piece_break_a"@,
        FxShot::PieceBreakB => "10b_piece_break_b"@,
        FxShot::PieceBreakC => "10c_piece_break_c"@,
        FxShot::ElimA => "11_elim_a"@,
        FxShot::ElimB => "11b_elim_b"@,
        FxShot::ElimC => "11c_elim_c"@,
        FxShot::ToBuildMid => "12a_to_build_mid"@,
        FxShot::BuildMode => "12_build_mode"@,
    }
}

impl FxShot {
    /// The capture's file stem.
    pub fn name(self) -> (r: &'static str)
        ensures
            r@ == fx_shot_name(self),
    {
        match self {
            FxShot::HipIdle => "01_hip_idle",
            FxShot::RifleFire => "02_rifle_fire",
            FxShot::RifleFireAfter => "02b_rifle_fire_after",
            FxShot::RifleAds => "03_rifle_ads",
            FxShot::RifleAdsFire => "03b_rifle_ads_fire",
            FxShot::ReloadDrop => "04_rifle_reload_drop",
            FxShot::ReloadInsert => "04b_rifle_reload_insert",
            FxShot::SwitchMid => "05_switch_mid",
            FxShot::PumpBlast => "06_pump_blast",
            FxShot::PumpBlastAfter => "06b_pump_blast_after",
            FxShot::PumpRack => "07_pump_rack",
            FxShot::PumpReload => "08_pump_reload",
            FxShot::PieceHits => "09_piece_hits",
            FxShot::PieceBreakA => "10_piece_break_a",
            FxShot::PieceBreakB => "10b_piece_break_b",
            FxShot::PieceBreakC => "10c_piece_break_c",
            FxShot::ElimA => "11_elim_a",
            FxShot::ElimB => "11b_elim_b",
            FxShot::ElimC => "11c_elim_c",
            FxShot::ToBuildMid => "12a_to_build_mid",
            FxShot::BuildMode => "12_build_mode",
        }
    }
}

/// Where the player is placed.
#[derive(Debug, Clone, Copy, PartialEq, Eq, Structural)]
pub enum FxSpot {
    /// 9 m from the dummy, for the rifle.
    RifleRange,
    /// 4.5 m from the dummy, for the pump.
    PumpRange,
    /// Where the player watches the wall.
    WallView,
    /// 7 m from the dummy, for the elimination.
    ElimRange,
}

/// What the player aims at.
#[derive(Debug, Clone, Copy, PartialEq, Eq, Structural)]
pub enum FxTarget {
    /// The dummy's chest.
    Chest,
    /// Beside the dummy's chest, for the pump's spread.
    PumpChest,
    /// The wall's face.
    Wall,
}

/// One thing to do in the world, in order.
#[derive(Debug, Clone, Copy, PartialEq, Eq, Structural)]
pub enum FxAct {
    /// Capture the window now.
    Snap(FxShot),
    /// The dummy stands still on its spot with this health and shield.
    StandDummy { hp: u32, shield: u32 },
    Teleport(FxSpot),
    Aim(FxTarget),
    /// Hold or release the trigger.
    Fire(bool),
    /// Press the trigger once.
    PressFire,
    ToggleAds,
    Reload,
    Select(ActiveTool),
    /// Place the wall that gets shot and broken.
    PlaceWall,
    /// Break that wall (if it was placed).
    BreakWall,
    /// Look level and slightly down, at where the build ghost shows.
    LookDown,
}

/// What the host reads in the world each frame.
#[derive(Debug, Clone, Copy, PartialEq, Eq, Structural, Default)]
pub struct FxEvent {
    /// The held rifle fires on this frame's fixed tick.
    pub rifle_fires_now: bool,
    /// The dummy is down.
    pub dummy_downed: bool,
}

/// The session's state, as values.
pub ghost struct FxView {
    /// Steps already taken.
    pub done: Seq<FxKey>,
    /// Captures scheduled for a later frame (frame, capture).
    pub pending: Seq<(u64, FxShot)>,
    /// The frame the elimination was seen on.
    pub kill_frame: Option<u64>,
}

/// A frame in progress: the state so far and the actions listed so far.
pub ghost struct FxStage {
    pub done: Seq<FxKey>,
    pub pending: Seq<(u64, FxShot)>,
    pub kill_frame: Option<u64>,
    pub acts: Seq<FxAct>,
}

pub open spec fn fx_stage(v: FxView, acts: Seq<FxAct>) -> FxStage {
    FxStage { done: v.done, pending: v.pending, kill_frame: v.kill_frame, acts }
}

/// A one-time step: when `cond` holds and the step was not taken, it is
/// taken, its actions are listed and its later captures scheduled.
pub open spec fn fx_once(
    s: FxStage,
    cond: bool,
    k: FxKey,
    acts: Seq<FxAct>,
    laters: Seq<(u64, FxShot)>,
) -> FxStage {
    if cond && !s.done.contains(k) {
        FxStage { done: s.done.push(k), pending: s.pending + laters, acts: s.acts + acts, ..s }
    } else {
        s
    }
}

/// Actions listed on every frame `cond` holds.
pub open spec fn fx_if(s: FxStage, cond: bool, acts: Seq<FxAct>) -> FxStage {
    if cond {
        FxStage { acts: s.acts + acts, ..s }
    } else {
        s
    }
}

/// The elimination, the first frame the dummy is seen down in its window:
/// the trigger is released and the burst captured now, 7 and 18 frames on.
pub open spec fn fx_kill(s: FxStage, cond: bool, frame: u64) -> FxStage {
    if cond && s.kill_frame is None {
        FxStage {
            kill_frame: Some(frame),
            acts: s.acts + seq![FxAct::Fire(false), FxAct::Snap(FxShot::ElimA)],
            pending: s.pending + seq![
                ((frame + 7) as u64, FxShot::ElimB),
                ((frame + 18) as u64, FxShot::ElimC),
            ],
            ..s
        }
    } else {
        s
    }
}

/// The captures scheduled for `frame`, in the order they were scheduled.
pub open spec fn due_snaps(pending: Seq<(u64, FxShot)>, frame: u64) -> Seq<FxAct>
    decreases pending.len(),
{
    if pending.len() == 0 {
        Seq::empty()
    } else {
        let rest = due_snaps(pending.drop_last(), frame);
        if pending.last().0 == frame {
            rest.push(FxAct::Snap(pending.last().1))
        } else {
            rest
        }
    }
}

/// Rifle from 9 m.
pub open spec fn fx_rifle(s: FxStage, t: u64, frame: u64, e: FxEvent) -> FxStage {
    let s1 = fx_once(s, t < 5800, FxKey::Setup, seq![FxAct::StandDummy { hp: 100, shield: 100 }, FxAct::Teleport(FxSpot::RifleRange)], seq![]);
    let s2 = fx_if(s1, t < 5800, seq![FxAct::Aim(FxTarget::Chest)]);
    let s3 = fx_once(s2, t >= 1200, FxKey::Hip, seq![FxAct::Snap(FxShot::HipIdle)], seq![]);
    let s4 = fx_if(s3, 1500 <= t && t < 2400, seq![FxAct::Fire(true)]);
    let s5 = fx_once(s4, 1500 <= t && t < 2400 && t >= 1900 && e.rifle_fires_now, FxKey::RifleFire, seq![FxAct::Snap(FxShot::RifleFire)], seq![((frame + 2) as u64, FxShot::RifleFireAfter)]);
    let s6 = fx_once(s5, t >= 2400, FxKey::Release1, seq![FxAct::Fire(false)], seq![]);
    let s7 = fx_once(s6, t >= 2600, FxKey::AdsOn, seq![FxAct::StandDummy { hp: 100, shield: 100 }, FxAct::ToggleAds], seq![]);
    let s8 = fx_once(s7, t >= 2950, FxKey::AdsStill, seq![FxAct::Snap(FxShot::RifleAds)], seq![]);
    let s9 = fx_if(s8, 3050 <= t && t < 3450, seq![FxAct::Fire(true)]);
    let s10 = fx_once(s9, 3050 <= t && t < 3450 && t >= 3150 && e.rifle_fires_now, FxKey::AdsFire, seq![FxAct::Snap(FxShot::RifleAdsFire)], seq![]);
    let s11 = fx_once(s10, t >= 3450, FxKey::Release2, seq![FxAct::Fire(false), FxAct::ToggleAds], seq![]);
    let s12 = fx_once(s11, t >= 3700, FxKey::Reload, seq![FxAct::Reload], seq![]);
    let s13 = fx_once(s12, t >= 4150, FxKey::ReloadA, seq![FxAct::Snap(FxShot::ReloadDrop)], seq![]);
    let s14 = fx_once(s13, t >= 5000, FxKey::ReloadB, seq![FxAct::Snap(FxShot::ReloadInsert)], seq![]);
    s14
}

/// Pump from 4.5 m.
pub open spec fn fx_pump(s: FxStage, t: u64, frame: u64, e: FxEvent) -> FxStage {
    let s1 = fx_once(s, t >= 5800, FxKey::PumpSetup, seq![FxAct::StandDummy { hp: 100, shield: 100 }, FxAct::Teleport(FxSpot::PumpRange), FxAct::Select(ActiveTool::Weapon(WeaponKind::Pump))], seq![]);
    let s2 = fx_once(s1, t >= 5870, FxKey::SwitchMid, seq![FxAct::Snap(FxShot::SwitchMid)], seq![]);
    let s3 = fx_if(s2, 5800 <= t && t < 8300, seq![FxAct::Aim(FxTarget::PumpChest)]);
    let s4 = fx_once(s3, t >= 6500, FxKey::PumpFire, seq![FxAct::PressFire, FxAct::Snap(FxShot::PumpBlast)], seq![((frame + 3) as u64, FxShot::PumpBlastAfter), ((frame + 18) as u64, FxShot::PumpRack)]);
    let s5 = fx_once(s4, t >= 7600, FxKey::PumpReload, seq![FxAct::Reload], seq![]);
    let s6 = fx_once(s5, t >= 7950, FxKey::PumpReloadSnap, seq![FxAct::Snap(FxShot::PumpReload)], seq![]);
    s6
}

/// Wood chips and a piece break.
pub open spec fn fx_wall(s: FxStage, t: u64, frame: u64, e: FxEvent) -> FxStage {
    let s1 = fx_once(s, t >= 8300, FxKey::WallSetup, seq![FxAct::Select(ActiveTool::Weapon(WeaponKind::Rifle)), FxAct::Teleport(FxSpot::WallView), FxAct::PlaceWall], seq![]);
    let s2 = fx_if(s1, 8300 <= t && t < 11000, seq![FxAct::Aim(FxTarget::Wall)]);
    let s3 = fx_if(s2, 8900 <= t && t < 9500, seq![FxAct::Fire(true)]);
    let s4 = fx_once(s3, 8900 <= t && t < 9500 && t >= 9200 && e.rifle_fires_now, FxKey::Chips, seq![FxAct::Snap(FxShot::PieceHits)], seq![]);
    let s5 = fx_once(s4, t >= 9500, FxKey::Release3, seq![FxAct::Fire(false)], seq![]);
    let s6 = fx_once(s5, t >= 9800, FxKey::Break, seq![FxAct::BreakWall], seq![((frame + 8) as u64, FxShot::PieceBreakA), ((frame + 22) as u64, FxShot::PieceBreakB), ((frame + 50) as u64, FxShot::PieceBreakC)]);
    s6
}

/// Elimination from 7 m.
pub open spec fn fx_elim(s: FxStage, t: u64, frame: u64, e: FxEvent) -> FxStage {
    let s1 = fx_once(s, t >= 11000, FxKey::ElimSetup, seq![FxAct::StandDummy { hp: 20, shield: 0 }, FxAct::Teleport(FxSpot::ElimRange)], seq![]);
    let s2 = fx_if(s1, 11000 <= t && t < 12800 && s1.kill_frame is None, seq![FxAct::Aim(FxTarget::Chest)]);
    let s3 = fx_if(s2, 11000 <= t && t < 12800 && t >= 11400 && !e.dummy_downed && s2.kill_frame is None, seq![FxAct::Fire(true)]);
    let s4 = fx_kill(s3, 11000 <= t && t < 12800 && e.dummy_downed, frame);
    s4
}

/// Build mode: the gun lowers away and the blueprint comes up.
pub open spec fn fx_build(s: FxStage, t: u64, frame: u64, e: FxEvent) -> FxStage {
    let s1 = fx_once(s, t >= 12800, FxKey::Build, seq![FxAct::Fire(false), FxAct::Select(ActiveTool::Build(PieceKind::Wall)), FxAct::LookDown], seq![]);
    let s2 = fx_once(s1, t >= 12870, FxKey::BuildMid, seq![FxAct::Snap(FxShot::ToBuildMid)], seq![]);
    let s3 = fx_once(s2, t >= 13400, FxKey::BuildSnap, seq![FxAct::Snap(FxShot::BuildMode)], seq![]);
    s3
}

/// The frame `frame` at time `t` (ms) in which the host saw `e`: the due
/// captures first, then the timeline's steps in order.
pub open spec fn fx_run(v: FxView, t: u64, frame: u64, e: FxEvent) -> FxStage {
    let s0 = fx_stage(v, due_snaps(v.pending, frame));
    fx_build(fx_elim(fx_wall(fx_pump(fx_rifle(s0, t, frame, e), t, frame, e), t, frame, e), t, frame, e), t, frame, e)
}

/// What one frame asks of the host.
#[derive(Debug, Clone, PartialEq, Eq)]
pub struct FxFrame {
    /// What to do, in order.
    pub acts: Vec<FxAct>,
    pub status: DirectorStatus,
}

/// The tour's progress.
#[derive(Debug, Clone)]
pub struct FxCheck {
    done: Vec<FxKey>,
    pending: Vec<(u64, FxShot)>,
    kill_frame: Option<u64>,
}

impl View for FxCheck {
    type V = FxView;

    closed spec fn view(&self) -> FxView {
        FxView { done: self.done@, pending: self.pending@, kill_frame: self.kill_frame }
    }
}

impl FxCheck {
    /// The tour before its first frame.
    pub fn new() -> (r: Self)
        ensures
            r@ == (FxView { done: Seq::empty(), pending: Seq::empty(), kill_frame: None }),
    {
        FxCheck { done: Vec::new(), pending: Vec::new(), kill_frame: None }
    }

    /// The frame the elimination was seen on, if it was.
    pub fn kill_frame(&self) -> (r: Option<u64>)
        ensures
            r == self@.kill_frame,
    {
        self.kill_frame
    }

    fn taken(&self, k: FxKey) -> (r: bool)
        ensures
            r == self@.done.contains(k),
    {
        let mut i: usize = 0;
        while i < self.done.len()
            invariant
                i <= self.done@.len(),
                forall|j: int| 0 <= j < i ==> self.done@[j] != k,
            decreases self.done@.len() - i,
        {
            if self.done[i] == k {
                assert(self.done@.contains(k));
                return true;
            }
            i = i + 1;
        }
        false
    }

    fn also(cond: bool, acts: &mut Vec<FxAct>, add: Vec<FxAct>)
        ensures
            final(acts)@ == if cond {
                old(acts)@ + add@
            } else {
                old(acts)@
            },
    {
        if !cond {
            return;
        }
        let ghost start = acts@;
        let mut i: usize = 0;
        while i < add.len()
            invariant
                i <= add@.len(),
                acts@ == start + add@.take(i as int),
            decreases add@.len() - i,
        {
            acts.push(add[i]);
            i = i + 1;
            assert(acts@ =~= start + add@.take(i as int));
        }
        assert(add@.take(i as int) =~= add@);
    }

    fn once(
        &mut self,
        cond: bool,
        k: FxKey,
        acts: &mut Vec<FxAct>,
        add: Vec<FxAct>,
        laters: Vec<(u64, FxShot)>,
    )
        ensures
            fx_stage(final(self)@, final(acts)@) == fx_once(
                fx_stage(old(self)@, old(acts)@),
                cond,
                k,
                add@,
                laters@,
            ),
    {
        if cond && !self.taken(k) {
            self.done.push(k);
            Self::also(true, acts, add);
            let ghost start = self.pending@;
            let mut i: usize = 0;
            while i < laters.len()
                invariant
                    i <= laters@.len(),
                    self.pending@ == start + laters@.take(i as int),
                    self.done@ == old(self)@.done.push(k),
                    self.kill_frame == old(self)@.kill_frame,
                    start == old(self)@.pending,
                decreases laters@.len() - i,
            {
                self.pending.push(laters[i]);
                i = i + 1;
                assert(self.pending@ =~= start + laters@.take(i as int));
            }
            assert(laters@.take(i as int) =~= laters@);
        }
    }

    fn kill(&mut self, cond: bool, frame: u64, acts: &mut Vec<FxAct>)
        requires
            frame <= u64::MAX - 50,
        ensures
            fx_stage(final(self)@, final(acts)@) == fx_kill(
                fx_stage(old(self)@, old(acts)@),
                cond,
                frame,
            ),
    {
        if cond && self.kill_frame.is_none() {
            self.kill_frame = Some(frame);
            acts.push(FxAct::Fire(false));
            acts.push(FxAct::Snap(FxShot::ElimA));
            self.pending.push((frame + 7, FxShot::ElimB));
            self.pending.push((frame + 18, FxShot::ElimC));
            proof {
                assert(acts@ =~= old(acts)@ + seq![FxAct::Fire(false), FxAct::Snap(FxShot::ElimA)]);
                assert(self.pending@ =~= old(self)@.pending + seq![
                    ((frame + 7) as u64, FxShot::ElimB),
                    ((frame + 18) as u64, FxShot::ElimC),
                ]);
            }
        }
    }

    fn due(&self, frame: u64) -> (r: Vec<FxAct>)
        ensures
            r@ == due_snaps(self@.pending, frame),
    {
        let mut out: Vec<FxAct> = Vec::new();
        let mut i: usize = 0;
        while i < self.pending.len()
            invariant
                i <= self.pending@.len(),
                out@ == due_snaps(self.pending@.take(i as int), frame),
            decreases self.pending@.len() - i,
        {
            let (f, shot) = self.pending[i];
            assert(self.pending@.take(i + 1).drop_last() =~= self.pending@.take(i as int));
            if f == frame {
                out.push(FxAct::Snap(shot));
            }
            i = i + 1;
        }
        assert(self.pending@.take(i as int) =~= self.pending@);
        out
    }

    /// Rifle from 9 m.
    fn rifle(&mut self, t: u64, frame: u64, e: &FxEvent, acts: &mut Vec<FxAct>)
        requires
            frame <= u64::MAX - 50,
        ensures
            fx_stage(final(self)@, final(acts)@) == fx_rifle(fx_stage(old(self)@, old(acts)@), t, frame, *e),
    {
        let v1: Vec<FxAct> = vec![FxAct::StandDummy { hp: 100, shield: 100 }, FxAct::Teleport(FxSpot::RifleRange)];
        assert(v1@ =~= seq![FxAct::StandDummy { hp: 100, shield: 100 }, FxAct::Teleport(FxSpot::RifleRange)]);
        let v2: Vec<(u64, FxShot)> = vec![];
        assert(v2@ =~= seq![]);
        self.once(t < 5800, FxKey::Setup, acts, v1, v2);
        let v3: Vec<FxAct> = vec![FxAct::Aim(FxTarget::Chest)];
        assert(v3@ =~= seq![FxAct::Aim(FxTarget::Chest)]);
        Self::also(t < 5800, acts, v3);
        let v4: Vec<FxAct> = vec![FxAct::Snap(FxShot::HipIdle)];
        assert(v4@ =~= seq![FxAct::Snap(FxShot::HipIdle)]);
        let v5: Vec<(u64, FxShot)> = vec![];
        assert(v5@ =~= seq![]);
        self.once(t >= 1200, FxKey::Hip, acts, v4, v5);
        let v6: Vec<FxAct> = vec![FxAct::Fire(true)];
        assert(v6@ =~= seq![FxAct::Fire(true)]);
        Self::also(1500 <= t && t < 2400, acts, v6);
        let v7: Vec<FxAct> = vec![FxAct::Snap(FxShot::RifleFire)];
        assert(v7@ =~= seq![FxAct::Snap(FxShot::RifleFire)]);
        let v8: Vec<(u64, FxShot)> = vec![(frame + 2, FxShot::RifleFireAfter)];
        assert(v8@ =~= seq![((frame + 2) as u64, FxShot::RifleFireAfter)]);
        self.once(1500 <= t && t < 2400 && t >= 1900 && e.rifle_fires_now, FxKey::RifleFire, acts, v7, v8);
        let v9: Vec<FxAct> = vec![FxAct::Fire(false)];
        assert(v9@ =~= seq![FxAct::Fire(false)]);
        let v10: Vec<(u64, FxShot)> = vec![];
        assert(v10@ =~= seq![]);
        self.once(t >= 2400, FxKey::Release1, acts, v9, v10);
        let v11: Vec<FxAct> = vec![FxAct::StandDummy { hp: 100, shield: 100 }, FxAct::ToggleAds];
        assert(v11@ =~= seq![FxAct::StandDummy { hp: 100, shield: 100 }, FxAct::ToggleAds]);
        let v12: Vec<(u64, FxShot)> = vec![];
        assert(v12@ =~= seq![]);
        self.once(t >= 2600, FxKey::AdsOn, acts, v11, v12);
        let v13: Vec<FxAct> = vec![FxAct::Snap(FxShot::RifleAds)];
        assert(v13@ =~= seq![FxAct::Snap(FxShot::RifleAds)]);
        let v14: Vec<(u64, FxShot)> = vec![];
        assert(v14@ =~= seq![]);
        self.once(t >= 2950, FxKey::AdsStill, acts, v13, v14);
        let v15: Vec<FxAct> = vec![FxAct::Fire(true)];
        assert(v15@ =~= seq![FxAct::Fire(true)]);
        Self::also(3050 <= t && t < 3450, acts, v15);
        let v16: Vec<FxAct> = vec![FxAct::Snap(FxShot::RifleAdsFire)];
        assert(v16@ =~= seq![FxAct::Snap(FxShot::RifleAdsFire)]);
        let v17: Vec<(u64, FxShot)> = vec![];
        assert(v17@ =~= seq![]);
        self.once(3050 <= t && t < 3450 && t >= 3150 && e.rifle_fires_now, FxKey::AdsFire, acts, v16, v17);
        let v18: Vec<FxAct> = vec![FxAct::Fire(false), FxAct::ToggleAds];
        assert(v18@ =~= seq![FxAct::Fire(false), FxAct::ToggleAds]);
        let v19: Vec<(u64, FxShot)> = vec![];
        assert(v19@ =~= seq![]);
        self.once(t >= 3450, FxKey::Release2, acts, v18, v19);
        let v20: Vec<FxAct> = vec![FxAct::Reload];
        assert(v20@ =~= seq![FxAct::Reload]);
        let v21: Vec<(u64, FxShot)> = vec![];
        assert(v21@ =~= seq![]);
        self.once(t >= 3700, FxKey::Reload, acts, v20, v21);
        let v22: Vec<FxAct> = vec![FxAct::Snap(FxShot::ReloadDrop)];
        assert(v22@ =~= seq![FxAct::Snap(FxShot::ReloadDrop)]);
        let v23: Vec<(u64, FxShot)> = vec![];
        assert(v23@ =~= seq![]);
        self.once(t >= 4150, FxKey::ReloadA, acts, v22, v23);
        let v24: Vec<FxAct> = vec![FxAct::Snap(FxShot::ReloadInsert)];
        assert(v24@ =~= seq![FxAct::Snap(FxShot::ReloadInsert)]);
        let v25: Vec<(u64, FxShot)> = vec![];
        assert(v25@ =~= seq![]);
        self.once(t >= 5000, FxKey::ReloadB, acts, v24, v25);
    }

    /// Pump from 4.5 m.
    fn pump(&mut self, t: u64, frame: u64, e: &FxEvent, acts: &mut Vec<FxAct>)
        requires
            frame <= u64::MAX - 50,
        ensures
            fx_stage(final(self)@, final(acts)@) == fx_pump(fx_stage(old(self)@, old(acts)@), t, frame, *e),
    {
        let v26: Vec<FxAct> = vec![FxAct::StandDummy { hp: 100, shield: 100 }, FxAct::Teleport(FxSpot::PumpRange), FxAct::Select(ActiveTool::Weapon(WeaponKind::Pump))];
        assert(v26@ =~= seq![FxAct::StandDummy { hp: 100, shield: 100 }, FxAct::Teleport(FxSpot::PumpRange), FxAct::Select(ActiveTool::Weapon(WeaponKind::Pump))]);
        let v27: Vec<(u64, FxShot)> = vec![];
        assert(v27@ =~= seq![]);
        self.once(t >= 5800, FxKey::PumpSetup, acts, v26, v27);
        let v28: Vec<FxAct> = vec![FxAct::Snap(FxShot::SwitchMid)];
        assert(v28@ =~= seq![FxAct::Snap(FxShot::SwitchMid)]);
        let v29: Vec<(u64, FxShot)> = vec![];
        assert(v29@ =~= seq![]);
        self.once(t >= 5870, FxKey::SwitchMid, acts, v28, v29);
        let v30: Vec<FxAct> = vec![FxAct::Aim(FxTarget::PumpChest)];
        assert(v30@ =~= seq![FxAct::Aim(FxTarget::PumpChest)]);
        Self::also(5800 <= t && t < 8300, acts, v30);
        let v31: Vec<FxAct> = vec![FxAct::PressFire, FxAct::Snap(FxShot::PumpBlast)];
        assert(v31@ =~= seq![FxAct::PressFire, FxAct::Snap(FxShot::PumpBlast)]);
        let v32: Vec<(u64, FxShot)> = vec![(frame + 3, FxShot::PumpBlastAfter), (frame + 18, FxShot::PumpRack)];
        assert(v32@ =~= seq![((frame + 3) as u64, FxShot::PumpBlastAfter), ((frame + 18) as u64, FxShot::PumpRack)]);
        self.once(t >= 6500, FxKey::PumpFire, acts, v31, v32);
        let v33: Vec<FxAct> = vec![FxAct::Reload];
        assert(v33@ =~= seq![FxAct::Reload]);
        let v34: Vec<(u64, FxShot)> = vec![];
        assert(v34@ =~= seq![]);
        self.once(t >= 7600, FxKey::PumpReload, acts, v33, v34);
        let v35: Vec<FxAct> = vec![FxAct::Snap(FxShot::PumpReload)];
        assert(v35@ =~= seq![FxAct::Snap(FxShot::PumpReload)]);
        let v36: Vec<(u64, FxShot)> = vec![];
        assert(v36@ =~= seq![]);
        self.once(t >= 7950, FxKey::PumpReloadSnap, acts, v35, v36);
    }

    /// Wood chips and a piece break.
    fn wall(&mut self, t: u64, frame: u64, e: &FxEvent, acts: &mut Vec<FxAct>)
        requires
            frame <= u64::MAX - 50,
        ensures
            fx_stage(final(self)@, final(acts)@) == fx_wall(fx_stage(old(self)@, old(acts)@), t, frame, *e),
    {
        let v37: Vec<FxAct> = vec![FxAct::Select(ActiveTool::Weapon(WeaponKind::Rifle)), FxAct::Teleport(FxSpot::WallView), FxAct::PlaceWall];
        assert(v37@ =~= seq![FxAct::Select(ActiveTool::Weapon(WeaponKind::Rifle)), FxAct::Teleport(FxSpot::WallView), FxAct::PlaceWall]);
        let v38: Vec<(u64, FxShot)> = vec![];
        assert(v38@ =~= seq![]);
        self.once(t >= 8300, FxKey::WallSetup, acts, v37, v38);
        let v39: Vec<FxAct> = vec![FxAct::Aim(FxTarget::Wall)];
        assert(v39@ =~= seq![FxAct::Aim(FxTarget::Wall)]);
        Self::also(8300 <= t && t < 11000, acts, v39);
        let v40: Vec<FxAct> = vec![FxAct::Fire(true)];
        assert(v40@ =~= seq![FxAct::Fire(true)]);
        Self::also(8900 <= t && t < 9500, acts, v40);
        let v41: Vec<FxAct> = vec![FxAct::Snap(FxShot::PieceHits)];
        assert(v41@ =~= seq![FxAct::Snap(FxShot::PieceHits)]);
        let v42: Vec<(u64, FxShot)> = vec![];
        assert(v42@ =~= seq![]);
        self.once(8900 <= t && t < 9500 && t >= 9200 && e.rifle_fires_now, FxKey::Chips, acts, v41, v42);
        let v43: Vec<FxAct> = vec![FxAct::Fire(false)];
        assert(v43@ =~= seq![FxAct::Fire(false)]);
        let v44: Vec<(u64, FxShot)> = vec![];
        assert(v44@ =~= seq![]);
        self.once(t >= 9500, FxKey::Release3, acts, v43, v44);
        let v45: Vec<FxAct> = vec![FxAct::BreakWall];
        assert(v45@ =~= seq![FxAct::BreakWall]);
        let v46: Vec<(u64, FxShot)> = vec![(frame + 8, FxShot::PieceBreakA), (frame + 22, FxShot::PieceBreakB), (frame + 50, FxShot::PieceBreakC)];
        assert(v46@ =~= seq![((frame + 8) as u64, FxShot::PieceBreakA), ((frame + 22) as u64, FxShot::PieceBreakB), ((frame + 50) as u64, FxShot::PieceBreakC)]);
        self.once(t >= 9800, FxKey::Break, acts, v45, v46);
    }

    /// Elimination from 7 m.
    fn elim(&mut self, t: u64, frame: u64, e: &FxEvent, acts: &mut Vec<FxAct>)
        requires
            frame <= u64::MAX - 50,
        ensures
            fx_stage(final(self)@, final(acts)@) == fx_elim(fx_stage(old(self)@, old(acts)@), t, frame, *e),
    {
        let v47: Vec<FxAct> = vec![FxAct::StandDummy { hp: 20, shield: 0 }, FxAct::Teleport(FxSpot::ElimRange)];
        assert(v47@ =~= seq![FxAct::StandDummy { hp: 20, shield: 0 }, FxAct::Teleport(FxSpot::ElimRange)]);
        let v48: Vec<(u64, FxShot)> = vec![];
        assert(v48@ =~= seq![]);
        self.once(t >= 11000, FxKey::ElimSetup, acts, v47, v48);
        let v49: Vec<FxAct> = vec![FxAct::Aim(FxTarget::Chest)];
        assert(v49@ =~= seq![FxAct::Aim(FxTarget::Chest)]);
        Self::also(11000 <= t && t < 12800 && self.kill_frame.is_none(), acts, v49);
        let v50: Vec<FxAct> = vec![FxAct::Fire(true)];
        assert(v50@ =~= seq![FxAct::Fire(true)]);
        Self::also(11000 <= t && t < 12800 && t >= 11400 && !e.dummy_downed && self.kill_frame.is_none(), acts, v50);
        self.kill(11000 <= t && t < 12800 && e.dummy_downed, frame, acts);
    }

    /// Build mode: the gun lowers away and the blueprint comes up.
    fn build(&mut self, t: u64, frame: u64, e: &FxEvent, acts: &mut Vec<FxAct>)
        requires
            frame <= u64::MAX - 50,
        ensures
            fx_stage(final(self)@, final(acts)@) == fx_build(fx_stage(old(self)@, old(acts)@), t, frame, *e),
    {
        let v51: Vec<FxAct> = vec![FxAct::Fire(false), FxAct::Select(ActiveTool::Build(PieceKind::Wall)), FxAct::LookDown];
        assert(v51@ =~= seq![FxAct::Fire(false), FxAct::Select(ActiveTool::Build(PieceKind::Wall)), FxAct::LookDown]);
        let v52: Vec<(u64, FxShot)> = vec![];
        assert(v52@ =~= seq![]);
        self.once(t >= 12800, FxKey::Build, acts, v51, v52);
        let v53: Vec<FxAct> = vec![FxAct::Snap(FxShot::ToBuildMid)];
        assert(v53@ =~= seq![FxAct::Snap(FxShot::ToBuildMid)]);
        let v54: Vec<(u64, FxShot)> = vec![];
        assert(v54@ =~= seq![]);
        self.once(t >= 12870, FxKey::BuildMid, acts, v53, v54);
        let v55: Vec<FxAct> = vec![FxAct::Snap(FxShot::BuildMode)];
        assert(v55@ =~= seq![FxAct::Snap(FxShot::BuildMode)]);
        let v56: Vec<(u64, FxShot)> = vec![];
        assert(v56@ =~= seq![]);
        self.once(t >= 13400, FxKey::BuildSnap, acts, v55, v56);
    }

    /// Frame `frame` at time `t` (ms), in which the host saw `e`.
    pub fn update(&mut self, t: u64, frame: u64, e: &FxEvent) -> (r: FxFrame)
        requires
            frame <= u64::MAX - 50,
        ensures
            ({
                let s = fx_run(old(self)@, t, frame, *e);
                &&& final(self)@ == (FxView {
                    done: s.done,
                    pending: s.pending,
                    kill_frame: s.kill_frame,
                })
                &&& r.acts@ == s.acts
            }),
            r.status == if t >= FX_END_MS {
                DirectorStatus::Done
            } else {
                DirectorStatus::Running
            },
    {
        let mut acts: Vec<FxAct> = self.due(frame);
        self.rifle(t, frame, e, &mut acts);
        self.pump(t, frame, e, &mut acts);
        self.wall(t, frame, e, &mut acts);
        self.elim(t, frame, e, &mut acts);
        self.build(t, frame, e, &mut acts);
        let status = if t >= FX_END_MS {
            DirectorStatus::Done
        } else {
            DirectorStatus::Running
        };
        FxFrame { acts, status }
    }
}

/// `b` extends `a`: it holds `a`'s steps in order, and maybe more.
pub open spec fn extends(a: Seq<FxKey>, b: Seq<FxKey>) -> bool {
    a.len() <= b.len() && b.take(a.len() as int) == a
}

proof fn lemma_steps_compose()
    ensures
        forall|s: FxStage, cond: bool, k: FxKey, acts: Seq<FxAct>, laters: Seq<(u64, FxShot)>|
            s.done.no_duplicates() ==> (#[trigger] fx_once(s, cond, k, acts, laters)).done.no_duplicates()
                && extends(s.done, fx_once(s, cond, k, acts, laters).done),
        forall|s: FxStage, cond: bool, acts: Seq<FxAct>| #[trigger] fx_if(s, cond, acts).done == s.done,
        forall|s: FxStage, cond: bool, frame: u64| #[trigger] fx_kill(s, cond, frame).done == s.done,
        forall|a: Seq<FxKey>, b: Seq<FxKey>, c: Seq<FxKey>|
            #[trigger] extends(a, b) && #[trigger] extends(b, c) ==> extends(a, c),
        forall|a: Seq<FxKey>| #[trigger] extends(a, a),
{
    assert forall|s: FxStage, cond: bool, k: FxKey, acts: Seq<FxAct>, laters: Seq<(u64, FxShot)>|
        s.done.no_duplicates() implies (#[trigger] fx_once(s, cond, k, acts, laters)).done.no_duplicates()
        && extends(s.done, fx_once(s, cond, k, acts, laters).done) by {
        let d0 = s.done;
        if cond && !d0.contains(k) {
            let d = d0.push(k);
            assert forall|i: int, j: int| 0 <= i < d.len() && 0 <= j < d.len() && i != j implies d[i]
                != d[j] by {
                if i < d0.len() && j < d0.len() {
                } else if i == d0.len() {
                    assert(d0[j] == d[j]);
                } else {
                    assert(d0[i] == d[i]);
                }
            }
            assert(d.take(d0.len() as int) =~= d0);
        } else {
            assert(d0.take(d0.len() as int) =~= d0);
        }
    }
    assert forall|a: Seq<FxKey>, b: Seq<FxKey>, c: Seq<FxKey>|
        #[trigger] extends(a, b) && #[trigger] extends(b, c) implies extends(a, c) by {
        assert(c.take(a.len() as int) =~= c.take(b.len() as int).take(a.len() as int));
    }
    assert forall|a: Seq<FxKey>| #[trigger] extends(a, a) by {
        assert(a.take(a.len() as int) =~= a);
    }
}

/// Every step of the tour happens at most once, and a step taken stays
/// taken: a frame only appends steps not taken before.
pub proof fn lemma_fx_steps_happen_once(v: FxView, t: u64, frame: u64, e: FxEvent)
    requires
        v.done.no_duplicates(),
    ensures
        fx_run(v, t, frame, e).done.no_duplicates(),
        extends(v.done, fx_run(v, t, frame, e).done),
{
    lemma_steps_compose();
    let s0 = fx_stage(v, due_snaps(v.pending, frame));
    let s1 = fx_rifle(s0, t, frame, e);
    let s2 = fx_pump(s1, t, frame, e);
    let s3 = fx_wall(s2, t, frame, e);
    let s4 = fx_elim(s3, t, frame, e);
    let s5 = fx_build(s4, t, frame, e);
    assert(s1.done.no_duplicates() && extends(s0.done, s1.done));
    assert(s2.done.no_duplicates() && extends(s1.done, s2.done));
    assert(s3.done.no_duplicates() && extends(s2.done, s3.done));
    assert(s4.done.no_duplicates() && extends(s3.done, s4.done));
    assert(s5.done.no_duplicates() && extends(s4.done, s5.done));
}

} // verus!
