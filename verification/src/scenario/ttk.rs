//! The `ttk` session's steps: rifle kills on a standing dummy at 15 m, then
//! one point-blank pump body shot at each of a few ranges, then a wall placed
//! between the two that soaks rifle fire until it breaks and a bullet reaches
//! the dummy.
//!
//! Each frame the host asks for the current step ([`TtkSteps::begin_frame`]),
//! does that step's work in the world (readying the gun, standing the dummy,
//! aiming, recording what the messages say) and reports what it saw; the
//! steps then decide what happens next ([`TtkSteps::decide`]).
use crate::scenario::DirectorStatus;
use vstd::prelude::*;

verus! {

/// Rifle kills measured.
pub const KILLS: usize = 6;
/// Point-blank pump shots, one per range.
pub const PUMP_SHOTS: usize = 3;
/// Frames the rifle (and the wall soak) aims once the gun is ready before
/// the trigger is pressed.
pub const RIFLE_AIM_FRAMES: u32 = 20;
/// Frames the pump aims before its shot, and frames the shot is watched.
pub const PUMP_FRAMES: u32 = 30;
/// Frames the session lingers once done.
pub const DONE_FRAMES: u32 = 10;

#[derive(Debug, Clone, Copy, PartialEq, Eq, Structural)]
pub enum TtkStep {
    Start,
    /// Get the rifle ready and the dummy standing at 15 m.
    RifleSetup,
    RifleFire,
    PumpSetup,
    PumpShot,
    WallSetup,
    WallFire,
    Done,
}

/// What the host saw in the world this frame, for the current step.
#[derive(Debug, Clone, Copy, PartialEq, Eq, Structural, Default)]
pub struct TtkEvent {
    /// The first seconds (shader warm-up) have passed.
    pub past_warmup: bool,
    /// The step has run longer than its timeout.
    pub timed_out: bool,
    /// The step's gun is held, full and ready to fire.
    pub gun_ready: bool,
    /// The dummy stands, at full health, where the step wants it.
    pub dummy_standing: bool,
    /// The dummy was eliminated (rifle fire).
    pub killed: bool,
    /// The wall could not be placed.
    pub wall_failed: bool,
    /// A bullet reached the dummy through the wall.
    pub dummy_hit: bool,
}

/// Something the session notes in its summary.
#[derive(Debug, Clone, Copy, PartialEq, Eq, Structural)]
pub enum TtkNote {
    RifleSetupTimedOut,
    /// The kill (its count so far) timed out.
    RifleKillTimedOut(usize),
    /// The pump setup (its index) timed out.
    PumpSetupTimedOut(usize),
    /// The wall could not be placed (the host adds the placement error).
    WallNotPlaced,
    WallSetupTimedOut,
    WallSoakTimedOut,
}

/// What the steps ask of the host after a frame.
#[derive(Debug, Clone, Copy, PartialEq, Eq, Structural)]
pub struct TtkDecision {
    /// Press the trigger: a rifle kill, the pump shot or the wall soak starts
    /// (the host records its start).
    pub fire: bool,
    /// Release the trigger.
    pub release: bool,
    pub note: Option<TtkNote>,
    /// The step entered this frame, if any.
    pub next: Option<TtkStep>,
    pub status: DirectorStatus,
}

/// The steps' state, as values.
pub ghost struct TtkView {
    pub step: TtkStep,
    pub frames_in_step: u32,
    /// Rifle kills started.
    pub kills: int,
    /// Pump shots started.
    pub pumps: int,
}

/// The steps' invariant: at most [`KILLS`] rifle kills and [`PUMP_SHOTS`]
/// pump shots are ever started, and a setup step only runs while one is left.
pub open spec fn ttk_wf(v: TtkView) -> bool {
    &&& 0 <= v.kills <= KILLS
    &&& 0 <= v.pumps <= PUMP_SHOTS
    &&& v.step == TtkStep::Start ==> v.kills == 0 && v.pumps == 0
    &&& v.step == TtkStep::RifleSetup ==> v.kills < KILLS
    &&& v.step == TtkStep::RifleFire ==> v.kills >= 1
    &&& v.step == TtkStep::PumpShot ==> v.pumps >= 1
}

/// Where a step stands in the session: rifle, pump, wall, done.
pub open spec fn stage(s: TtkStep) -> int {
    match s {
        TtkStep::Start => 0,
        TtkStep::RifleSetup | TtkStep::RifleFire => 1,
        TtkStep::PumpSetup | TtkStep::PumpShot => 2,
        TtkStep::WallSetup | TtkStep::WallFire => 3,
        TtkStep::Done => 4,
    }
}

/// The step a finished (or abandoned) rifle kill leads to.
pub open spec fn after_kill(kills: int) -> TtkStep {
    if kills >= KILLS {
        TtkStep::PumpSetup
    } else {
        TtkStep::RifleSetup
    }
}

/// No change, no request.
pub open spec fn stay() -> TtkDecision {
    TtkDecision {
        fire: false,
        release: false,
        note: None,
        next: None,
        status: DirectorStatus::Running,
    }
}

/// Entering `next`, with the trigger pressed or released and a note.
pub open spec fn go(next: TtkStep, fire: bool, release: bool, note: Option<TtkNote>) -> TtkDecision {
    TtkDecision { fire, release, note, next: Some(next), status: DirectorStatus::Running }
}

/// The decision after a frame of step `v.step` in which the host saw `e`.
pub open spec fn decide_spec(v: TtkView, e: TtkEvent) -> TtkDecision {
    match v.step {
        TtkStep::Start => if e.past_warmup {
            go(TtkStep::RifleSetup, false, false, None)
        } else {
            stay()
        },
        TtkStep::RifleSetup => if !e.dummy_standing {
            stay()
        } else if e.gun_ready && v.frames_in_step > RIFLE_AIM_FRAMES {
            go(TtkStep::RifleFire, true, false, None)
        } else if e.timed_out {
            go(TtkStep::PumpSetup, false, false, Some(TtkNote::RifleSetupTimedOut))
        } else {
            stay()
        },
        TtkStep::RifleFire => if e.killed {
            go(after_kill(v.kills), false, true, None)
        } else if e.timed_out {
            go(
                after_kill(v.kills),
                false,
                true,
                Some(TtkNote::RifleKillTimedOut(v.kills as usize)),
            )
        } else {
            stay()
        },
        TtkStep::PumpSetup => if v.pumps >= PUMP_SHOTS {
            go(TtkStep::WallSetup, false, false, None)
        } else if !e.dummy_standing {
            stay()
        } else if e.gun_ready && v.frames_in_step > PUMP_FRAMES {
            go(TtkStep::PumpShot, true, false, None)
        } else if e.timed_out {
            go(TtkStep::WallSetup, false, false, Some(TtkNote::PumpSetupTimedOut(v.pumps as usize)))
        } else {
            stay()
        },
        TtkStep::PumpShot => if v.frames_in_step > PUMP_FRAMES {
            go(TtkStep::PumpSetup, false, true, None)
        } else {
            TtkDecision { release: true, ..stay() }
        },
        TtkStep::WallSetup => if !e.dummy_standing {
            stay()
        } else if e.wall_failed {
            go(TtkStep::Done, false, false, Some(TtkNote::WallNotPlaced))
        } else if e.gun_ready && v.frames_in_step > RIFLE_AIM_FRAMES {
            go(TtkStep::WallFire, true, false, None)
        } else if e.timed_out {
            go(TtkStep::Done, false, false, Some(TtkNote::WallSetupTimedOut))
        } else {
            stay()
        },
        TtkStep::WallFire => if e.dummy_hit || e.timed_out {
            go(
                TtkStep::Done,
                false,
                true,
                if e.timed_out {
                    Some(TtkNote::WallSoakTimedOut)
                } else {
                    None
                },
            )
        } else {
            stay()
        },
        TtkStep::Done => if v.frames_in_step > DONE_FRAMES {
            TtkDecision { release: true, status: DirectorStatus::Done, ..stay() }
        } else {
            TtkDecision { release: true, ..stay() }
        },
    }
}

/// The steps after a frame of step `v.step` in which the host saw `e`.
pub open spec fn ttk_next(v: TtkView, e: TtkEvent) -> TtkView {
    let d = decide_spec(v, e);
    match d.next {
        Some(s) => TtkView {
            step: s,
            frames_in_step: 0,
            kills: if s == TtkStep::RifleFire {
                v.kills + 1
            } else {
                v.kills
            },
            pumps: if s == TtkStep::PumpShot {
                v.pumps + 1
            } else {
                v.pumps
            },
        },
        None => v,
    }
}

/// The session's steps.
#[derive(Debug, Clone, PartialEq, Eq)]
pub struct TtkSteps {
    step: TtkStep,
    frames_in_step: u32,
    kills: usize,
    pumps: usize,
}

impl View for TtkSteps {
    type V = TtkView;

    closed spec fn view(&self) -> TtkView {
        TtkView {
            step: self.step,
            frames_in_step: self.frames_in_step,
            kills: self.kills as int,
            pumps: self.pumps as int,
        }
    }
}

impl TtkSteps {
    pub closed spec fn wf(&self) -> bool {
        ttk_wf(self@)
    }

    /// The session before its first frame.
    pub fn new() -> (r: Self)
        ensures
            r.wf(),
            r@ == (TtkView { step: TtkStep::Start, frames_in_step: 0, kills: 0, pumps: 0 }),
    {
        TtkSteps { step: TtkStep::Start, frames_in_step: 0, kills: 0, pumps: 0 }
    }

    pub fn step(&self) -> (r: TtkStep)
        ensures
            r == self@.step,
    {
        self.step
    }

    /// Rifle kills started so far.
    pub fn kills(&self) -> (r: usize)
        ensures
            r == self@.kills,
    {
        self.kills
    }

    /// Pump shots started so far.
    pub fn pumps(&self) -> (r: usize)
        ensures
            r == self@.pumps,
    {
        self.pumps
    }

    /// Starts a frame: counts it into the current step and says which step
    /// the host works on.
    pub fn begin_frame(&mut self) -> (r: TtkStep)
        requires
            old(self).wf(),
            old(self)@.frames_in_step < u32::MAX,
        ensures
            final(self).wf(),
            final(self)@ == (TtkView { frames_in_step: (old(self)@.frames_in_step + 1) as u32, ..old(self)@ }),
            r == old(self)@.step,
    {
        self.frames_in_step = self.frames_in_step + 1;
        self.step
    }

    /// Decides what follows the frame in which the host saw `e`.
    pub fn decide(&mut self, e: &TtkEvent) -> (r: TtkDecision)
        requires
            old(self).wf(),
        ensures
            final(self).wf(),
            r == decide_spec(old(self)@, *e),
            final(self)@ == ttk_next(old(self)@, *e),
    {
        let d: TtkDecision = match self.step {
            TtkStep::Start => {
                if e.past_warmup {
                    Self::go_to(TtkStep::RifleSetup, false, false, None)
                } else {
                    Self::stay_put()
                }
            },
            TtkStep::RifleSetup => {
                if !e.dummy_standing {
                    Self::stay_put()
                } else if e.gun_ready && self.frames_in_step > RIFLE_AIM_FRAMES {
                    Self::go_to(TtkStep::RifleFire, true, false, None)
                } else if e.timed_out {
                    Self::go_to(TtkStep::PumpSetup, false, false, Some(TtkNote::RifleSetupTimedOut))
                } else {
                    Self::stay_put()
                }
            },
            TtkStep::RifleFire => {
                let next: TtkStep = if self.kills >= KILLS {
                    TtkStep::PumpSetup
                } else {
                    TtkStep::RifleSetup
                };
                if e.killed {
                    Self::go_to(next, false, true, None)
                } else if e.timed_out {
                    Self::go_to(next, false, true, Some(TtkNote::RifleKillTimedOut(self.kills)))
                } else {
                    Self::stay_put()
                }
            },
            TtkStep::PumpSetup => {
                if self.pumps >= PUMP_SHOTS {
                    Self::go_to(TtkStep::WallSetup, false, false, None)
                } else if !e.dummy_standing {
                    Self::stay_put()
                } else if e.gun_ready && self.frames_in_step > PUMP_FRAMES {
                    Self::go_to(TtkStep::PumpShot, true, false, None)
                } else if e.timed_out {
                    Self::go_to(
                        TtkStep::WallSetup,
                        false,
                        false,
                        Some(TtkNote::PumpSetupTimedOut(self.pumps)),
                    )
                } else {
                    Self::stay_put()
                }
            },
            TtkStep::PumpShot => {
                if self.frames_in_step > PUMP_FRAMES {
                    Self::go_to(TtkStep::PumpSetup, false, true, None)
                } else {
                    TtkDecision {
                        fire: false,
                        release: true,
                        note: None,
                        next: None,
                        status: DirectorStatus::Running,
                    }
                }
            },
            TtkStep::WallSetup => {
                if !e.dummy_standing {
                    Self::stay_put()
                } else if e.wall_failed {
                    Self::go_to(TtkStep::Done, false, false, Some(TtkNote::WallNotPlaced))
                } else if e.gun_ready && self.frames_in_step > RIFLE_AIM_FRAMES {
                    Self::go_to(TtkStep::WallFire, true, false, None)
                } else if e.timed_out {
                    Self::go_to(TtkStep::Done, false, false, Some(TtkNote::WallSetupTimedOut))
                } else {
                    Self::stay_put()
                }
            },
            TtkStep::WallFire => {
                if e.dummy_hit || e.timed_out {
                    let note = if e.timed_out {
                        Some(TtkNote::WallSoakTimedOut)
                    } else {
                        None
                    };
                    Self::go_to(TtkStep::Done, false, true, note)
                } else {
                    Self::stay_put()
                }
            },
            TtkStep::Done => {
                let status = if self.frames_in_step > DONE_FRAMES {
                    DirectorStatus::Done
                } else {
                    DirectorStatus::Running
                };
                TtkDecision { fire: false, release: true, note: None, next: None, status }
            },
        };
        if let Some(s) = d.next {
            if s == TtkStep::RifleFire {
                self.kills = self.kills + 1;
            }
            if s == TtkStep::PumpShot {
                self.pumps = self.pumps + 1;
            }
            self.step = s;
            self.frames_in_step = 0;
        }
        d
    }

    fn stay_put() -> (r: TtkDecision)
        ensures
            r == stay(),
    {
        TtkDecision {
            fire: false,
            release: false,
            note: None,
            next: None,
            status: DirectorStatus::Running,
        }
    }

    fn go_to(next: TtkStep, fire: bool, release: bool, note: Option<TtkNote>) -> (r: TtkDecision)
        ensures
            r == go(next, fire, release, note),
    {
        TtkDecision { fire, release, note, next: Some(next), status: DirectorStatus::Running }
    }
}

/// The session only moves forward: rifle kills, then pump shots, then the
/// wall, then done; it never goes back to an earlier stage.
pub proof fn lemma_steps_only_move_forward(v: TtkView, e: TtkEvent)
    requires
        ttk_wf(v),
    ensures
        ttk_wf(ttk_next(v, e)),
        stage(ttk_next(v, e).step) >= stage(v.step),
        ttk_next(v, e).kills >= v.kills,
        ttk_next(v, e).pumps >= v.pumps,
{
}

/// A reported timeout always moves a setup or firing step on (a kill that
/// never comes, a gun that never gets ready or a wall that never breaks
/// cannot hang the session), while the dummy stands.
pub proof fn lemma_timeouts_move_on(v: TtkView, e: TtkEvent)
    requires
        ttk_wf(v),
        e.timed_out,
        e.dummy_standing,
        v.step != TtkStep::Start && v.step != TtkStep::PumpShot && v.step != TtkStep::Done,
    ensures
        decide_spec(v, e).next is Some,
{
}

/// Exactly the rifle kills asked for are started: a kill is started only
/// while fewer than [`KILLS`] were, and the pump shots follow the last one.
pub proof fn lemma_kills_are_counted(v: TtkView, e: TtkEvent)
    requires
        ttk_wf(v),
    ensures
        decide_spec(v, e).fire && v.step == TtkStep::RifleSetup ==> ttk_next(v, e).kills
            == v.kills + 1 <= KILLS,
        (v.step == TtkStep::RifleFire && decide_spec(v, e).next is Some) ==> (ttk_next(v, e).step
            == TtkStep::PumpSetup <==> v.kills >= KILLS),
{
}

} // verus!
