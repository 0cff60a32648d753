//! The target-board gallery's schedule: which view plays, when it freezes,
//! when it is captured and when the next one starts, one call per rendered
//! frame.
//!
//! Each view is set up on one frame, then lives (its scripted actions run on
//! their frames) until its moment comes: a fixed number of frames after it
//! started, or a number of frames after the player's shot fired. A view whose
//! moment never comes freezes anyway after [`VIEW_TIMEOUT`] frames. The frame
//! after the freeze is captured, and [`HOLD`] frames later the view is taken
//! down and the next one is set up.
//!
//! Placing the player, the knight, the pieces and the camera is the host's
//! work: [`GalleryRunner::frame`] says what to do and the host does it.
use crate::shared::{ActiveTool, Facing, GridCell, PieceKind, PieceSlot, WeaponKind};
use vstd::prelude::*;

verus! {

/// Frames a view settles before its moment: the tool switch, piece pop-ins, the
/// knight's respawn pop and the previous view's effects are all done by then.
pub const SETTLE: u32 = 72;
/// Frame the views that shoot fire on.
pub const FIRE_AT: u32 = SETTLE;
/// Frames the freeze holds after the capture frame before the next view.
pub const HOLD: u32 = 4;
/// A view that never reaches its moment (no shot) captures anyway after this.
pub const VIEW_TIMEOUT: u32 = 360;

/// A scripted action, `n` frames into the view.
#[derive(Debug, Clone, Copy, PartialEq, Eq, Structural)]
pub enum Act {
    /// Press and release the primary action (fire the gun).
    Fire,
    /// Switch tools.
    Select(ActiveTool),
    /// Pause the game (the pause menu opens) or resume it.
    Pause(bool),
}

/// When a view freezes and captures.
#[derive(Debug, Clone, Copy, PartialEq, Eq, Structural)]
pub enum Moment {
    /// This many frames after the view starts.
    Settled(u32),
    /// This many frames (≥ 1) after the frame the player's shot fired.
    AfterShot(u32),
}

/// Where the current view stands.
#[derive(Debug, Clone, Copy, PartialEq, Eq, Structural)]
pub enum Phase {
    /// The next frame sets the view up.
    Setup,
    /// Playing, before its moment.
    Live,
    /// Frozen since this view frame.
    Frozen(u32),
}

/// What the schedule needs of a view: the file stem it is captured under, its
/// scripted actions (in frames after the view starts, in order) and its moment.
#[derive(Debug, Clone)]
pub struct ViewPlan {
    pub name: String,
    pub script: Vec<(u32, Act)>,
    pub moment: Moment,
}

/// The player's shots read since the last frame, and what they did to the
/// knight.
#[derive(Debug, Clone, Copy, PartialEq, Eq, Structural, Default)]
pub struct ShotReport {
    pub fired: u32,
    pub hits: u32,
    pub headshots: u32,
    pub shield_breaks: u32,
    pub kills: u32,
}

/// What happened in one view.
#[derive(Debug, Clone, Copy, PartialEq, Eq, Structural, Default)]
pub struct ViewTally {
    pub shots: u32,
    pub hits: u32,
    pub headshots: u32,
    pub shield_breaks: u32,
    pub kills: u32,
    /// View frame the freeze started on.
    pub moment_frame: Option<u32>,
    /// The moment never came (no shot); frozen at the timeout instead.
    pub missed: bool,
}

/// A view's tally before anything happened in it.
pub open spec fn fresh_tally() -> ViewTally {
    ViewTally {
        shots: 0,
        hits: 0,
        headshots: 0,
        shield_breaks: 0,
        kills: 0,
        moment_frame: None,
        missed: false,
    }
}

/// `t` with the shots of `r` counted in.
pub open spec fn tally_add(t: ViewTally, r: ShotReport) -> ViewTally {
    ViewTally {
        shots: (t.shots + r.fired) as u32,
        hits: (t.hits + r.hits) as u32,
        headshots: (t.headshots + r.headshots) as u32,
        shield_breaks: (t.shield_breaks + r.shield_breaks) as u32,
        kills: (t.kills + r.kills) as u32,
        ..t
    }
}

/// Counting `r` into `t` overflows no counter.
pub open spec fn tally_fits(t: ViewTally, r: ShotReport) -> bool {
    &&& t.shots + r.fired <= u32::MAX
    &&& t.hits + r.hits <= u32::MAX
    &&& t.headshots + r.headshots <= u32::MAX
    &&& t.shield_breaks + r.shield_breaks <= u32::MAX
    &&& t.kills + r.kills <= u32::MAX
}

/// Where the scripted actions due by view frame `now` end, starting from
/// `from`: every action scheduled at or before `now` runs, in order, and a shot
/// ends the frame's actions (one press per frame).
pub open spec fn acts_end(script: Seq<(u32, Act)>, from: int, now: u32) -> int
    decreases script.len() - from,
{
    if from < 0 || from >= script.len() || script[from].0 > now {
        from
    } else if script[from].1 is Fire {
        from + 1
    } else {
        acts_end(script, from + 1, now)
    }
}

/// The actions of `script` from `from` up to `end`.
pub open spec fn acts_between(script: Seq<(u32, Act)>, from: int, end: int) -> Seq<Act> {
    script.subrange(from, end).map_values(|p: (u32, Act)| p.1)
}

/// The last action run was a shot, so the trigger is released next frame.
pub open spec fn ends_with_fire(script: Seq<(u32, Act)>, from: int, end: int) -> bool {
    end > from && script[end - 1].1 is Fire
}

/// The schedule, as mathematical values.
pub ghost struct RunnerView {
    pub views: Seq<ViewPlan>,
    pub lead_in: u32,
    /// Frames run so far.
    pub frame: u32,
    /// The view playing (`views.len()` once every view is captured).
    pub index: int,
    /// Frames into the current view.
    pub view_frame: u32,
    pub phase: Phase,
    /// The next scripted action of the current view.
    pub next_act: int,
    /// A shot was pressed last frame: release the trigger.
    pub release_fire: bool,
    /// Frame the current view's shot fired on.
    pub shot_frame: Option<u32>,
    /// The gallery has been set up (once, after the lead-in).
    pub started: bool,
    /// File stems to capture, in the order asked.
    pub captures: Seq<String>,
    /// One tally per view set up so far.
    pub records: Seq<ViewTally>,
}

/// The schedule's invariant.
pub open spec fn runner_wf(v: RunnerView) -> bool {
    &&& 0 <= v.index <= v.views.len()
    &&& v.view_frame <= VIEW_TIMEOUT + HOLD + 2
    &&& v.phase == Phase::Setup ==> v.records.len() == v.index
    &&& v.phase != Phase::Setup ==> {
        &&& v.index < v.views.len()
        &&& v.records.len() == v.index + 1
        &&& 0 <= v.next_act <= v.views[v.index].script@.len()
    }
    &&& v.phase == Phase::Live ==> v.view_frame < VIEW_TIMEOUT
    &&& v.phase matches Phase::Frozen(at) ==> at <= VIEW_TIMEOUT && at <= v.view_frame <= at + 1
        + HOLD
}

/// A frame can be counted: the frame counter and the current view's tally
/// have room for it.
pub open spec fn has_room_for(v: RunnerView, r: ShotReport) -> bool {
    &&& v.frame < u32::MAX
    &&& (v.phase != Phase::Setup && 0 <= v.index < v.records.len()) ==> tally_fits(
        v.records[v.index],
        r,
    )
}

/// The start of a frame: the counter moves on, last frame's shot is released,
/// and the shots read are counted to the current view (not while a view is
/// being set up). The first frame with a shot becomes the view's shot frame.
pub open spec fn watched(v: RunnerView, r: ShotReport) -> RunnerView {
    let frame = (v.frame + 1) as u32;
    if v.phase != Phase::Setup && 0 <= v.index < v.records.len() {
        RunnerView {
            frame,
            release_fire: false,
            shot_frame: if r.fired > 0 && v.shot_frame is None {
                Some((frame - 1) as u32)
            } else {
                v.shot_frame
            },
            records: v.records.update(v.index, tally_add(v.records[v.index], r)),
            ..v
        }
    } else {
        RunnerView { frame, release_fire: false, ..v }
    }
}

/// The view's moment has come on view frame `view_frame`.
pub open spec fn moment_reached(moment: Moment, view_frame: u32, frame: u32, shot: Option<u32>) -> bool {
    match moment {
        Moment::Settled(n) => view_frame >= n,
        Moment::AfterShot(n) => shot matches Some(f) && frame >= f + n,
    }
}

/// What one frame does to the schedule (after [`watched`]).
pub open spec fn scheduled(w: RunnerView) -> RunnerView {
    if w.frame <= w.lead_in {
        w
    } else if w.index >= w.views.len() {
        RunnerView { started: true, ..w }
    } else {
        let plan = w.views[w.index];
        match w.phase {
            Phase::Setup => RunnerView {
                started: true,
                view_frame: 0,
                next_act: 0,
                shot_frame: None,
                phase: Phase::Live,
                records: w.records.push(fresh_tally()),
                ..w
            },
            Phase::Live => {
                let vf = (w.view_frame + 1) as u32;
                let end = acts_end(plan.script@, w.next_act, vf);
                let reached = moment_reached(plan.moment, vf, w.frame, w.shot_frame);
                let freeze = reached || vf >= VIEW_TIMEOUT;
                RunnerView {
                    started: true,
                    view_frame: vf,
                    next_act: end,
                    release_fire: ends_with_fire(plan.script@, w.next_act, end),
                    phase: if freeze {
                        Phase::Frozen(vf)
                    } else {
                        Phase::Live
                    },
                    records: if freeze {
                        w.records.update(
                            w.index,
                            ViewTally {
                                moment_frame: Some(vf),
                                missed: !reached,
                                ..w.records[w.index]
                            },
                        )
                    } else {
                        w.records
                    },
                    ..w
                }
            },
            Phase::Frozen(at) => {
                let vf = (w.view_frame + 1) as u32;
                let teardown = vf > at + 1 + HOLD;
                RunnerView {
                    started: true,
                    view_frame: vf,
                    captures: if vf == at + 1 {
                        w.captures.push(plan.name)
                    } else {
                        w.captures
                    },
                    index: if teardown {
                        w.index + 1
                    } else {
                        w.index
                    },
                    phase: if teardown {
                        Phase::Setup
                    } else {
                        Phase::Frozen(at)
                    },
                    ..w
                }
            },
        }
    }
}

/// The schedule after one frame in which `r` was read.
pub open spec fn runner_next(v: RunnerView, r: ShotReport) -> RunnerView {
    scheduled(watched(v, r))
}

/// What a frame asks the host to do with the current view, as values.
pub ghost enum StepView {
    LeadIn,
    Done,
    Setup,
    Live { acts: Seq<Act>, freeze: Option<bool> },
    Frozen { capture: bool, teardown: bool },
}

/// What a frame asks of the host, as values.
pub ghost struct FrameView {
    pub release_fire: bool,
    pub start: bool,
    pub step: StepView,
}

/// What the frame in which `r` was read asks of the host.
pub open spec fn frame_out(v: RunnerView, r: ShotReport) -> FrameView {
    let w = watched(v, r);
    let start = w.frame > w.lead_in && !w.started;
    let step = if w.frame <= w.lead_in {
        StepView::LeadIn
    } else if w.index >= w.views.len() {
        StepView::Done
    } else {
        let plan = w.views[w.index];
        match w.phase {
            Phase::Setup => StepView::Setup,
            Phase::Live => {
                let vf = (w.view_frame + 1) as u32;
                let end = acts_end(plan.script@, w.next_act, vf);
                let reached = moment_reached(plan.moment, vf, w.frame, w.shot_frame);
                StepView::Live {
                    acts: acts_between(plan.script@, w.next_act, end),
                    freeze: if reached || vf >= VIEW_TIMEOUT {
                        Some(!reached)
                    } else {
                        None
                    },
                }
            },
            Phase::Frozen(at) => {
                let vf = (w.view_frame + 1) as u32;
                StepView::Frozen { capture: vf == at + 1, teardown: vf > at + 1 + HOLD }
            },
        }
    };
    FrameView { release_fire: v.release_fire, start, step }
}

/// What a frame asks the host to do with the current view.
#[derive(Debug, Clone, PartialEq, Eq)]
pub enum GalleryStep {
    /// Still in the lead-in: pipelines settle before the first view.
    LeadIn,
    /// Every view is captured: the gallery is over.
    Done,
    /// Set the current view up: the player's tool and feet, the knight, the
    /// pieces and the camera, then drive it.
    Setup,
    /// A live frame: perform `acts` in order, then drive the view; when
    /// `freeze` is `Some(missed)`, freeze the world and record the moment
    /// (`missed` when only the timeout ended the view).
    Live { acts: Vec<Act>, freeze: Option<bool> },
    /// A frozen frame: `capture` the view now; `teardown` takes its pieces
    /// down and thaws the world (the next view follows).
    Frozen { capture: bool, teardown: bool },
}

impl View for GalleryStep {
    type V = StepView;

    open spec fn view(&self) -> StepView {
        match self {
            GalleryStep::LeadIn => StepView::LeadIn,
            GalleryStep::Done => StepView::Done,
            GalleryStep::Setup => StepView::Setup,
            GalleryStep::Live { acts, freeze } => StepView::Live { acts: acts@, freeze: *freeze },
            GalleryStep::Frozen { capture, teardown } => StepView::Frozen {
                capture: *capture,
                teardown: *teardown,
            },
        }
    }
}

/// What one frame asks of the host.
#[derive(Debug, Clone, PartialEq, Eq)]
pub struct GalleryFrame {
    /// Release the trigger pressed by last frame's shot.
    pub release_fire: bool,
    /// First frame after the lead-in: prepare the gallery (its field of view,
    /// the knight as a puppet) before anything else.
    pub start: bool,
    pub step: GalleryStep,
}

impl View for GalleryFrame {
    type V = FrameView;

    open spec fn view(&self) -> FrameView {
        FrameView { release_fire: self.release_fire, start: self.start, step: self.step@ }
    }
}

/// Plays the views in order, one call to [`GalleryRunner::frame`] per rendered
/// frame.
pub struct GalleryRunner {
    views: Vec<ViewPlan>,
    lead_in: u32,
    frame: u32,
    index: usize,
    view_frame: u32,
    phase: Phase,
    next_act: usize,
    release_fire: bool,
    shot_frame: Option<u32>,
    started: bool,
    captures: Vec<String>,
    records: Vec<ViewTally>,
}

impl View for GalleryRunner {
    type V = RunnerView;

    closed spec fn view(&self) -> RunnerView {
        RunnerView {
            views: self.views@,
            lead_in: self.lead_in,
            frame: self.frame,
            index: self.index as int,
            view_frame: self.view_frame,
            phase: self.phase,
            next_act: self.next_act as int,
            release_fire: self.release_fire,
            shot_frame: self.shot_frame,
            started: self.started,
            captures: self.captures@,
            records: self.records@,
        }
    }
}

proof fn lemma_acts_end_bounds(script: Seq<(u32, Act)>, from: int, now: u32)
    requires
        0 <= from <= script.len(),
    ensures
        from <= acts_end(script, from, now) <= script.len(),
    decreases script.len() - from,
{
    if from < script.len() && script[from].0 <= now && !(script[from].1 is Fire) {
        lemma_acts_end_bounds(script, from + 1, now);
    }
}

impl GalleryRunner {
    /// The schedule's invariant holds.
    pub closed spec fn wf(&self) -> bool {
        runner_wf(self@)
    }

    /// `lead_in` frames pass before the first view (pipelines settle).
    pub fn new(views: Vec<ViewPlan>, lead_in: u32) -> (r: Self)
        ensures
            r.wf(),
            r@ == (RunnerView {
                views: views@,
                lead_in,
                frame: 0,
                index: 0,
                view_frame: 0,
                phase: Phase::Setup,
                next_act: 0,
                release_fire: false,
                shot_frame: None,
                started: false,
                captures: Seq::empty(),
                records: Seq::empty(),
            }),
    {
        GalleryRunner {
            views,
            lead_in,
            frame: 0,
            index: 0,
            view_frame: 0,
            phase: Phase::Setup,
            next_act: 0,
            release_fire: false,
            shot_frame: None,
            started: false,
            captures: Vec::new(),
            records: Vec::new(),
        }
    }

    pub fn views(&self) -> (r: &[ViewPlan])
        ensures
            r@ == self@.views,
    {
        self.views.as_slice()
    }

    /// One tally per view set up so far.
    pub fn records(&self) -> (r: &[ViewTally])
        ensures
            r@ == self@.records,
    {
        self.records.as_slice()
    }

    /// File stems to capture now, in the order asked.
    pub fn take_captures(&mut self) -> (r: Vec<String>)
        requires
            old(self).wf(),
        ensures
            final(self).wf(),
            r@ == old(self)@.captures,
            final(self)@ == (RunnerView { captures: Seq::empty(), ..old(self)@ }),
    {
        let mut taken: Vec<String> = Vec::new();
        std::mem::swap(&mut taken, &mut self.captures);
        taken
    }

    /// Every view is captured.
    pub fn is_done(&self) -> (r: bool)
        ensures
            r == (self@.index >= self@.views.len()),
    {
        self.index >= self.views.len()
    }

    /// Whether the frame that reads `report` can be counted (see
    /// [`has_room_for`]).
    pub fn has_room(&self, report: &ShotReport) -> (r: bool)
        requires
            self.wf(),
        ensures
            r == has_room_for(self@, *report),
    {
        if self.frame == u32::MAX {
            return false;
        }
        if self.phase == Phase::Setup || self.index >= self.records.len() {
            return true;
        }
        let t: ViewTally = self.records[self.index];
        t.shots as u64 + report.fired as u64 <= u32::MAX as u64 && t.hits as u64
            + report.hits as u64 <= u32::MAX as u64 && t.headshots as u64 + report.headshots as u64
            <= u32::MAX as u64 && t.shield_breaks as u64 + report.shield_breaks as u64
            <= u32::MAX as u64 && t.kills as u64 + report.kills as u64 <= u32::MAX as u64
    }

    /// Counts the shots read this frame to the current view.
    fn watch(&mut self, report: &ShotReport)
        requires
            old(self).wf(),
            has_room_for(old(self)@, *report),
        ensures
            final(self)@ == watched(old(self)@, *report),
            final(self).wf(),
    {
        self.frame = self.frame + 1;
        self.release_fire = false;
        if self.phase != Phase::Setup && self.index < self.records.len() {
            if report.fired > 0 && self.shot_frame.is_none() {
                self.shot_frame = Some(self.frame - 1);
            }
            let t: ViewTally = self.records[self.index];
            let counted = ViewTally {
                shots: t.shots + report.fired,
                hits: t.hits + report.hits,
                headshots: t.headshots + report.headshots,
                shield_breaks: t.shield_breaks + report.shield_breaks,
                kills: t.kills + report.kills,
                ..t
            };
            self.records.set(self.index, counted);
        }
    }

    /// The actions of the current view due by view frame `now`, from the next
    /// one on; a shot ends them. Returns them and where the next frame resumes.
    fn due_acts(&self, now: u32) -> (r: (Vec<Act>, usize))
        requires
            self.wf(),
            self@.phase != Phase::Setup,
        ensures
            r.1 as int == acts_end(self@.views[self@.index].script@, self@.next_act, now),
            r.0@ == acts_between(self@.views[self@.index].script@, self@.next_act, r.1 as int),
    {
        let script: &Vec<(u32, Act)> = &self.views[self.index].script;
        let start: usize = self.next_act;
        let mut k: usize = start;
        let mut acts: Vec<Act> = Vec::new();
        let mut stop: bool = false;
        while !stop && k < script.len()
            invariant
                start <= k <= script@.len(),
                acts@ == acts_between(script@, start as int, k as int),
                !stop ==> acts_end(script@, k as int, now) == acts_end(
                    script@,
                    start as int,
                    now,
                ),
                stop ==> k as int == acts_end(script@, start as int, now),
            decreases 2 * (script@.len() - k) + (if stop {
                0int
            } else {
                1int
            }),
        {
            let (at, act) = script[k];
            if at > now {
                stop = true;
            } else {
                acts.push(act);
                assert(acts_between(script@, start as int, k + 1) =~= acts_between(
                    script@,
                    start as int,
                    k as int,
                ).push(act));
                k = k + 1;
                if act == Act::Fire {
                    stop = true;
                }
            }
        }
        (acts, k)
    }

    /// Advances one rendered frame in which `report` was read. Says what the
    /// host must do this frame; [`GalleryStep::Done`] once every view is
    /// captured.
    pub fn frame(&mut self, report: &ShotReport) -> (r: GalleryFrame)
        requires
            old(self).wf(),
            has_room_for(old(self)@, *report),
        ensures
            final(self).wf(),
            final(self)@ == runner_next(old(self)@, *report),
            r@ == frame_out(old(self)@, *report),
    {
        let release_fire: bool = self.release_fire;
        self.watch(report);
        if self.frame <= self.lead_in {
            return GalleryFrame { release_fire, start: false, step: GalleryStep::LeadIn };
        }
        let start: bool = !self.started;
        self.started = true;
        if self.index >= self.views.len() {
            return GalleryFrame { release_fire, start, step: GalleryStep::Done };
        }
        match self.phase {
            Phase::Setup => {
                self.view_frame = 0;
                self.next_act = 0;
                self.shot_frame = None;
                self.phase = Phase::Live;
                self.records.push(
                    ViewTally {
                        shots: 0,
                        hits: 0,
                        headshots: 0,
                        shield_breaks: 0,
                        kills: 0,
                        moment_frame: None,
                        missed: false,
                    },
                );
                GalleryFrame { release_fire, start, step: GalleryStep::Setup }
            },
            Phase::Live => {
                let vf: u32 = self.view_frame + 1;
                let (acts, end) = self.due_acts(vf);
                proof {
                    lemma_acts_end_bounds(
                        self@.views[self@.index].script@,
                        self@.next_act,
                        vf,
                    );
                }
                let fired: bool = end > self.next_act && self.views[self.index].script[end
                    - 1].1 == Act::Fire;
                let reached: bool = match self.views[self.index].moment {
                    Moment::Settled(n) => vf >= n,
                    Moment::AfterShot(n) => match self.shot_frame {
                        Some(f) => self.frame as u64 >= f as u64 + n as u64,
                        None => false,
                    },
                };
                let freeze: bool = reached || vf >= VIEW_TIMEOUT;
                self.view_frame = vf;
                self.next_act = end;
                self.release_fire = fired;
                if freeze {
                    self.phase = Phase::Frozen(vf);
                    let t: ViewTally = self.records[self.index];
                    self.records.set(
                        self.index,
                        ViewTally { moment_frame: Some(vf), missed: !reached, ..t },
                    );
                    GalleryFrame {
                        release_fire,
                        start,
                        step: GalleryStep::Live { acts, freeze: Some(!reached) },
                    }
                } else {
                    GalleryFrame {
                        release_fire,
                        start,
                        step: GalleryStep::Live { acts, freeze: None },
                    }
                }
            },
            Phase::Frozen(at) => {
                let vf: u32 = self.view_frame + 1;
                self.view_frame = vf;
                let capture: bool = vf == at + 1;
                if capture {
                    let name: String = self.views[self.index].name.clone();
                    self.captures.push(name);
                }
                let teardown: bool = vf > at + 1 + HOLD;
                if teardown {
                    self.index = self.index + 1;
                    self.phase = Phase::Setup;
                }
                GalleryFrame { release_fire, start, step: GalleryStep::Frozen { capture, teardown } }
            },
        }
    }
}


/// How many views have been captured: those before the current one, and the
/// current one once its capture frame has passed.
pub open spec fn captured_count(v: RunnerView) -> int {
    v.index + if v.phase matches Phase::Frozen(at) && v.view_frame >= at + 1 {
        1int
    } else {
        0int
    }
}

/// The file stems of the first `n` views, in order.
pub open spec fn first_names(views: Seq<ViewPlan>, n: int) -> Seq<String> {
    Seq::new(n as nat, |i: int| views[i].name)
}

/// The schedule after one frame per report, in order.
pub open spec fn run(v: RunnerView, reports: Seq<ShotReport>) -> RunnerView
    decreases reports.len(),
{
    if reports.len() == 0 {
        v
    } else {
        run(runner_next(v, reports[0]), reports.drop_first())
    }
}

/// At most this many frames pass before the current view is taken down.
pub open spec fn frames_to_teardown(v: RunnerView) -> int {
    match v.phase {
        Phase::Setup => 0,
        Phase::Live => (VIEW_TIMEOUT - v.view_frame) + HOLD + 2,
        Phase::Frozen(at) => at + HOLD + 2 - v.view_frame,
    }
}

/// Every frame keeps the schedule's invariant.
pub proof fn lemma_schedule_keeps_invariant(v: RunnerView, r: ShotReport)
    requires
        runner_wf(v),
    ensures
        runner_wf(runner_next(v, r)),
{
    let w = watched(v, r);
    assert(runner_wf(w));
    if w.frame > w.lead_in && w.index < w.views.len() {
        if w.phase == Phase::Live {
            let vf = (w.view_frame + 1) as u32;
            lemma_acts_end_bounds(w.views[w.index].script@, w.next_act, vf);
        }
    }
}

/// Every view is captured exactly once, in the order given: as long as no
/// capture is taken, the captures asked for are the file stems of the views
/// whose capture frame has passed, in order. A new runner starts so (nothing
/// captured, nothing asked), and every frame keeps it so.
pub proof fn lemma_views_are_captured_once_in_order(v: RunnerView, r: ShotReport)
    requires
        runner_wf(v),
        v.captures == first_names(v.views, captured_count(v)),
    ensures
        runner_next(v, r).captures == first_names(
            runner_next(v, r).views,
            captured_count(runner_next(v, r)),
        ),
{
    let w = watched(v, r);
    let n = runner_next(v, r);
    if w.frame > w.lead_in && w.index < w.views.len() {
        if let Phase::Frozen(at) = w.phase {
            if w.view_frame + 1 == at + 1 {
                assert(n.captures =~= first_names(n.views, captured_count(n)));
            }
        }
    }
    assert(n.captures =~= first_names(n.views, captured_count(n)));
}

/// The view index never goes back.
pub proof fn lemma_index_never_decreases(v: RunnerView, reports: Seq<ShotReport>)
    requires
        runner_wf(v),
    ensures
        run(v, reports).index >= v.index,
    decreases reports.len(),
{
    if reports.len() > 0 {
        lemma_schedule_keeps_invariant(v, reports[0]);
        lemma_index_never_decreases(runner_next(v, reports[0]), reports.drop_first());
    }
}

/// No view can hang the gallery: whatever the player's shots do, once the
/// lead-in is over a view that has been set up is taken down (and the next one
/// follows) within [`frames_to_teardown`] frames — at most
/// `VIEW_TIMEOUT + HOLD + 2` from its first live frame.
pub proof fn lemma_views_end_in_bounded_time(v: RunnerView, reports: Seq<ShotReport>)
    requires
        runner_wf(v),
        v.phase != Phase::Setup,
        v.frame >= v.lead_in,
        v.frame + reports.len() <= u32::MAX,
        reports.len() >= frames_to_teardown(v),
    ensures
        run(v, reports).index > v.index,
    decreases reports.len(),
{
    let w = runner_next(v, reports[0]);
    lemma_schedule_keeps_invariant(v, reports[0]);
    if w.index > v.index {
        lemma_index_never_decreases(w, reports.drop_first());
    } else {
        lemma_views_end_in_bounded_time(w, reports.drop_first());
    }
}

proof fn lemma_frozen_frames(v: RunnerView, reports: Seq<ShotReport>, at: u32)
    requires
        runner_wf(v),
        v.frame >= v.lead_in,
        v.frame + reports.len() <= u32::MAX,
        v.phase == Phase::Frozen(at),
        at + 1 <= v.view_frame,
        v.view_frame + reports.len() <= at + 2 + HOLD,
    ensures
        v.view_frame + reports.len() <= at + 1 + HOLD ==> {
            &&& run(v, reports).phase == Phase::Frozen(at)
            &&& run(v, reports).index == v.index
            &&& run(v, reports).view_frame == v.view_frame + reports.len()
            &&& run(v, reports).captures == v.captures
        },
        v.view_frame + reports.len() == at + 2 + HOLD ==> {
            &&& run(v, reports).phase == Phase::Setup
            &&& run(v, reports).index == v.index + 1
            &&& run(v, reports).captures == v.captures
        },
    decreases reports.len(),
{
    if reports.len() > 0 {
        let w = runner_next(v, reports[0]);
        lemma_schedule_keeps_invariant(v, reports[0]);
        if w.phase == Phase::Frozen(at) {
            lemma_frozen_frames(w, reports.drop_first(), at);
        } else {
            assert(reports.drop_first().len() == 0);
        }
    }
}

/// The freeze holds: the frame after a view's capture frame it is still
/// frozen, and so it stays for [`HOLD`] frames in all; the frame after those
/// it is taken down (and the next view is set up on the one after). Nothing
/// more is captured meanwhile.
pub proof fn lemma_freeze_holds_after_the_capture(v: RunnerView, reports: Seq<ShotReport>)
    requires
        runner_wf(v),
        v.frame >= v.lead_in,
        v.frame + reports.len() <= u32::MAX,
        v.phase matches Phase::Frozen(at) && v.view_frame == at + 1,
        reports.len() <= HOLD + 1,
    ensures
        reports.len() <= HOLD ==> {
            &&& run(v, reports).phase == v.phase
            &&& run(v, reports).index == v.index
            &&& run(v, reports).captures == v.captures
        },
        reports.len() == HOLD + 1 ==> {
            &&& run(v, reports).phase == Phase::Setup
            &&& run(v, reports).index == v.index + 1
            &&& run(v, reports).captures == v.captures
        },
{
    if let Phase::Frozen(at) = v.phase {
        lemma_frozen_frames(v, reports, at);
    }
}

/// What a view must show happening (checked headless).
#[derive(Debug, Clone, Copy, PartialEq, Eq, Structural)]
pub enum Expect {
    /// No shot: a still view.
    Still,
    /// A body hit that neither breaks a shield nor kills.
    Hit,
    Headshot,
    ShieldBreak,
    Kill,
    /// The build ghost shows this slot, valid (blue).
    GhostSlot(PieceSlot),
    /// The game is paused with the menu open.
    Paused,
}

/// One target-board view: what the schedule and the checks read of it. Where
/// the player and the knight stand, the aim and the framing are the host's.
#[derive(Debug, Clone)]
pub struct GalleryView {
    /// "T01".
    pub id: &'static str,
    /// File stem, shared with the target image: "T01-spawn-vista".
    pub name: &'static str,
    /// What the target shows (the board page's caption).
    pub title: &'static str,
    pub tool: ActiveTool,
    /// Pieces built for this view, removed after it.
    pub pieces: Vec<PieceSlot>,
    /// Scripted actions, in frames after the view starts.
    pub script: Vec<(u32, Act)>,
    pub moment: Moment,
    pub expect: Expect,
}

/// A view, as values.
pub ghost struct ViewSpec {
    pub id: Seq<char>,
    pub name: Seq<char>,
    pub title: Seq<char>,
    pub tool: ActiveTool,
    pub pieces: Seq<PieceSlot>,
    pub script: Seq<(u32, Act)>,
    pub moment: Moment,
    pub expect: Expect,
}

impl View for GalleryView {
    type V = ViewSpec;

    open spec fn view(&self) -> ViewSpec {
        ViewSpec {
            id: self.id@,
            name: self.name@,
            title: self.title@,
            tool: self.tool,
            pieces: self.pieces@,
            script: self.script@,
            moment: self.moment,
            expect: self.expect,
        }
    }
}

impl GalleryView {
    /// What the schedule needs of this view.
    pub fn plan(&self) -> (r: ViewPlan)
        ensures
            r.name@ == self.name@,
            r.script@ == self.script@,
            r.moment == self.moment,
    {
        let mut script: Vec<(u32, Act)> = Vec::new();
        let mut i: usize = 0;
        while i < self.script.len()
            invariant
                i <= self.script@.len(),
                script@ == self.script@.take(i as int),
            decreases self.script@.len() - i,
        {
            script.push(self.script[i]);
            i = i + 1;
            assert(script@ =~= self.script@.take(i as int));
        }
        assert(self.script@.take(i as int) =~= self.script@);
        ViewPlan { name: self.name.to_string(), script, moment: self.moment }
    }
}

/// A wall slot, as a value.
pub open spec fn wall_at(x: i32, z: i32, level: i32, facing: Facing) -> PieceSlot {
    PieceSlot { kind: PieceKind::Wall, cell: GridCell { x, z, level }, facing: Some(facing) }
}

/// A ramp slot, as a value.
pub open spec fn ramp_at(x: i32, z: i32, level: i32, facing: Facing) -> PieceSlot {
    PieceSlot { kind: PieceKind::Ramp, cell: GridCell { x, z, level }, facing: Some(facing) }
}

/// A floor slot, as a value.
pub open spec fn floor_at(x: i32, z: i32, level: i32) -> PieceSlot {
    PieceSlot { kind: PieceKind::Floor, cell: GridCell { x, z, level }, facing: None }
}

/// View T01: Spawn vista.
pub open spec fn t01_spec() -> ViewSpec {
    ViewSpec {
        id: "T01"@,
        name: "T01-spawn-vista"@,
        title: "Spawn vista"@,
        tool: ActiveTool::Weapon(WeaponKind::Rifle),
        pieces: seq![],
        script: seq![],
        moment: Moment::Settled(SETTLE),
        expect: Expect::Still,
    }
}
/// View T02: Rifle idle, gun tilted toward the viewer.
pub open spec fn t02_spec() -> ViewSpec {
    ViewSpec {
        id: "T02"@,
        name: "T02-rifle-idle"@,
        title: "Rifle idle, gun tilted toward the viewer"@,
        tool: ActiveTool::Weapon(WeaponKind::Rifle),
        pieces: seq![wall_at(5, 5, 0, Facing::West)],
        script: seq![],
        moment: Moment::Settled(SETTLE),
        expect: Expect::Still,
    }
}
/// View T03: Rifle bolt in flight; the knight running at about 20 m.
pub open spec fn t03_spec() -> ViewSpec {
    ViewSpec {
        id: "T03"@,
        name: "T03-rifle-bolt"@,
        title: "Rifle bolt in flight; the knight running at about 20 m"@,
        tool: ActiveTool::Weapon(WeaponKind::Rifle),
        pieces: seq![wall_at(2, 7, 0, Facing::East), ramp_at(2, 7, 0, Facing::East), wall_at(4, 9, 0, Facing::South), wall_at(5, 9, 0, Facing::East), floor_at(5, 9, 1)],
        script: seq![(FIRE_AT, Act::Fire)],
        moment: Moment::AfterShot(2),
        expect: Expect::Hit,
    }
}
/// View T04: Pump spark fan; the knight at about 5 m.
pub open spec fn t04_spec() -> ViewSpec {
    ViewSpec {
        id: "T04"@,
        name: "T04-pump-fan"@,
        title: "Pump spark fan; the knight at about 5 m"@,
        tool: ActiveTool::Weapon(WeaponKind::Pump),
        pieces: seq![wall_at(4, 9, 0, Facing::West), wall_at(4, 9, 0, Facing::North), ramp_at(4, 9, 0, Facing::North), floor_at(4, 9, 1)],
        script: seq![(FIRE_AT, Act::Fire)],
        moment: Moment::AfterShot(2),
        expect: Expect::Hit,
    }
}
/// View T05: Knight body hit at about 10 m: wide eyes, damage number.
pub open spec fn t05_spec() -> ViewSpec {
    ViewSpec {
        id: "T05"@,
        name: "T05-knight-hit"@,
        title: "Knight body hit at about 10 m: wide eyes, damage number"@,
        tool: ActiveTool::Weapon(WeaponKind::Rifle),
        pieces: seq![wall_at(8, 9, 0, Facing::South), ramp_at(8, 10, 0, Facing::North)],
        script: seq![(FIRE_AT, Act::Fire)],
        moment: Moment::AfterShot(3),
        expect: Expect::Hit,
    }
}
/// View T06: Headshot at about 12 m: hat bouncing, gold number.
pub open spec fn t06_spec() -> ViewSpec {
    ViewSpec {
        id: "T06"@,
        name: "T06-headshot"@,
        title: "Headshot at about 12 m: hat bouncing, gold number"@,
        tool: ActiveTool::Weapon(WeaponKind::Rifle),
        pieces: seq![wall_at(3, 7, 0, Facing::North), ramp_at(3, 7, 0, Facing::North), wall_at(4, 9, 0, Facing::East)],
        script: seq![(FIRE_AT, Act::Fire)],
        moment: Moment::AfterShot(7),
        expect: Expect::Headshot,
    }
}
/// View T07: Shield break at about 8 m, stars.
pub open spec fn t07_spec() -> ViewSpec {
    ViewSpec {
        id: "T07"@,
        name: "T07-shield-break"@,
        title: "Shield break at about 8 m, stars"@,
        tool: ActiveTool::Weapon(WeaponKind::Rifle),
        pieces: seq![wall_at(5, 7, 0, Facing::West)],
        script: seq![(FIRE_AT, Act::Fire)],
        moment: Moment::AfterShot(9),
        expect: Expect::ShieldBreak,
    }
}
/// View T08: Elimination poof at about 8 m, hat spinning on the grass.
pub open spec fn t08_spec() -> ViewSpec {
    ViewSpec {
        id: "T08"@,
        name: "T08-elimination"@,
        title: "Elimination poof at about 8 m, hat spinning on the grass"@,
        tool: ActiveTool::Weapon(WeaponKind::Rifle),
        pieces: seq![wall_at(9, 8, 0, Facing::West), floor_at(9, 8, 1)],
        script: seq![(FIRE_AT, Act::Fire)],
        moment: Moment::AfterShot(28),
        expect: Expect::Kill,
    }
}
/// View T09: A 1×1 fort (3 brick walls, a ramp inside, a floor on top) with a blue ghost wall beside it; wall slot selected.
pub open spec fn t09_spec() -> ViewSpec {
    ViewSpec {
        id: "T09"@,
        name: "T09-fort"@,
        title: "A 1×1 fort (3 brick walls, a ramp inside, a floor on top) with a blue ghost wall beside it; wall slot selected"@,
        tool: ActiveTool::Build(PieceKind::Wall),
        pieces: seq![wall_at(6, 7, 0, Facing::West), wall_at(6, 7, 0, Facing::North), wall_at(6, 7, 0, Facing::East), ramp_at(6, 7, 0, Facing::North), floor_at(6, 7, 1)],
        script: seq![],
        moment: Moment::Settled(SETTLE),
        expect: Expect::GhostSlot(wall_at(7, 8, 0, Facing::North)),
    }
}
/// View T10: Looking up at the station.
pub open spec fn t10_spec() -> ViewSpec {
    ViewSpec {
        id: "T10"@,
        name: "T10-station-up"@,
        title: "Looking up at the station"@,
        tool: ActiveTool::Weapon(WeaponKind::Rifle),
        pieces: seq![],
        script: seq![],
        moment: Moment::Settled(SETTLE),
        expect: Expect::Still,
    }
}
/// View T11: The island edge and barrier.
pub open spec fn t11_spec() -> ViewSpec {
    ViewSpec {
        id: "T11"@,
        name: "T11-island-edge"@,
        title: "The island edge and barrier"@,
        tool: ActiveTool::Weapon(WeaponKind::Rifle),
        pieces: seq![],
        script: seq![],
        moment: Moment::Settled(SETTLE),
        expect: Expect::Still,
    }
}
/// View T12: The pause menu.
pub open spec fn t12_spec() -> ViewSpec {
    ViewSpec {
        id: "T12"@,
        name: "T12-pause-menu"@,
        title: "The pause menu"@,
        tool: ActiveTool::Weapon(WeaponKind::Rifle),
        pieces: seq![],
        script: seq![(24u32, Act::Pause(true))],
        moment: Moment::Settled(SETTLE),
        expect: Expect::Paused,
    }
}

/// The twelve views, T01 to T12, in order.
pub open spec fn views_spec() -> Seq<ViewSpec> {
    seq![
        t01_spec(),
        t02_spec(),
        t03_spec(),
        t04_spec(),
        t05_spec(),
        t06_spec(),
        t07_spec(),
        t08_spec(),
        t09_spec(),
        t10_spec(),
        t11_spec(),
        t12_spec(),
    ]
}

fn view_t01() -> (r: GalleryView)
    ensures
        r@ == t01_spec(),
{
    let pieces: Vec<PieceSlot> = Vec::new();
    let script: Vec<(u32, Act)> = Vec::new();
    proof {
        assert(pieces@ =~= t01_spec().pieces);
        assert(script@ =~= t01_spec().script);
    }
    GalleryView {
        id: "T01",
        name: "T01-spawn-vista",
        title: "Spawn vista",
        tool: ActiveTool::Weapon(WeaponKind::Rifle),
        pieces,
        script,
        moment: Moment::Settled(SETTLE),
        expect: Expect::Still,
    }
}
fn view_t02() -> (r: GalleryView)
    ensures
        r@ == t02_spec(),
{
    let pieces: Vec<PieceSlot> = vec![PieceSlot::wall(GridCell::new(5, 5, 0), Facing::West)];
    let script: Vec<(u32, Act)> = Vec::new();
    proof {
        assert(pieces@ =~= t02_spec().pieces);
        assert(script@ =~= t02_spec().script);
    }
    GalleryView {
        id: "T02",
        name: "T02-rifle-idle",
        title: "Rifle idle, gun tilted toward the viewer",
        tool: ActiveTool::Weapon(WeaponKind::Rifle),
        pieces,
        script,
        moment: Moment::Settled(SETTLE),
        expect: Expect::Still,
    }
}
fn view_t03() -> (r: GalleryView)
    ensures
        r@ == t03_spec(),
{
    let pieces: Vec<PieceSlot> = vec![PieceSlot::wall(GridCell::new(2, 7, 0), Facing::East), PieceSlot::ramp(GridCell::new(2, 7, 0), Facing::East), PieceSlot::wall(GridCell::new(4, 9, 0), Facing::South), PieceSlot::wall(GridCell::new(5, 9, 0), Facing::East), PieceSlot::floor(GridCell::new(5, 9, 1))];
    let script: Vec<(u32, Act)> = vec![(FIRE_AT, Act::Fire)];
    proof {
        assert(pieces@ =~= t03_spec().pieces);
        assert(script@ =~= t03_spec().script);
    }
    GalleryView {
        id: "T03",
        name: "T03-rifle-bolt",
        title: "Rifle bolt in flight; the knight running at about 20 m",
        tool: ActiveTool::Weapon(WeaponKind::Rifle),
        pieces,
        script,
        moment: Moment::AfterShot(2),
        expect: Expect::Hit,
    }
}
fn view_t04() -> (r: GalleryView)
    ensures
        r@ == t04_spec(),
{
    let pieces: Vec<PieceSlot> = vec![PieceSlot::wall(GridCell::new(4, 9, 0), Facing::West), PieceSlot::wall(GridCell::new(4, 9, 0), Facing::North), PieceSlot::ramp(GridCell::new(4, 9, 0), Facing::North), PieceSlot::floor(GridCell::new(4, 9, 1))];
    let script: Vec<(u32, Act)> = vec![(FIRE_AT, Act::Fire)];
    proof {
        assert(pieces@ =~= t04_spec().pieces);
        assert(script@ =~= t04_spec().script);
    }
    GalleryView {
        id: "T04",
        name: "T04-pump-fan",
        title: "Pump spark fan; the knight at about 5 m",
        tool: ActiveTool::Weapon(WeaponKind::Pump),
        pieces,
        script,
        moment: Moment::AfterShot(2),
        expect: Expect::Hit,
    }
}
fn view_t05() -> (r: GalleryView)
    ensures
        r@ == t05_spec(),
{
    let pieces: Vec<PieceSlot> = vec![PieceSlot::wall(GridCell::new(8, 9, 0), Facing::South), PieceSlot::ramp(GridCell::new(8, 10, 0), Facing::North)];
    let script: Vec<(u32, Act)> = vec![(FIRE_AT, Act::Fire)];
    proof {
        assert(pieces@ =~= t05_spec().pieces);
        assert(script@ =~= t05_spec().script);
    }
    GalleryView {
        id: "T05",
        name: "T05-knight-hit",
        title: "Knight body hit at about 10 m: wide eyes, damage number",
        tool: ActiveTool::Weapon(WeaponKind::Rifle),
        pieces,
        script,
        moment: Moment::AfterShot(3),
        expect: Expect::Hit,
    }
}
fn view_t06() -> (r: GalleryView)
    ensures
        r@ == t06_spec(),
{
    let pieces: Vec<PieceSlot> = vec![PieceSlot::wall(GridCell::new(3, 7, 0), Facing::North), PieceSlot::ramp(GridCell::new(3, 7, 0), Facing::North), PieceSlot::wall(GridCell::new(4, 9, 0), Facing::East)];
    let script: Vec<(u32, Act)> = vec![(FIRE_AT, Act::Fire)];
    proof {
        assert(pieces@ =~= t06_spec().pieces);
        assert(script@ =~= t06_spec().script);
    }
    GalleryView {
        id: "T06",
        name: "T06-headshot",
        title: "Headshot at about 12 m: hat bouncing, gold number",
        tool: ActiveTool::Weapon(WeaponKind::Rifle),
        pieces,
        script,
        moment: Moment::AfterShot(7),
        expect: Expect::Headshot,
    }
}
fn view_t07() -> (r: GalleryView)
    ensures
        r@ == t07_spec(),
{
    let pieces: Vec<PieceSlot> = vec![PieceSlot::wall(GridCell::new(5, 7, 0), Facing::West)];
    let script: Vec<(u32, Act)> = vec![(FIRE_AT, Act::Fire)];
    proof {
        assert(pieces@ =~= t07_spec().pieces);
        assert(script@ =~= t07_spec().script);
    }
    GalleryView {
        id: "T07",
        name: "T07-shield-break",
        title: "Shield break at about 8 m, stars",
        tool: ActiveTool::Weapon(WeaponKind::Rifle),
        pieces,
        script,
        moment: Moment::AfterShot(9),
        expect: Expect::ShieldBreak,
    }
}
fn view_t08() -> (r: GalleryView)
    ensures
        r@ == t08_spec(),
{
    let pieces: Vec<PieceSlot> = vec![PieceSlot::wall(GridCell::new(9, 8, 0), Facing::West), PieceSlot::floor(GridCell::new(9, 8, 1))];
    let script: Vec<(u32, Act)> = vec![(FIRE_AT, Act::Fire)];
    proof {
        assert(pieces@ =~= t08_spec().pieces);
        assert(script@ =~= t08_spec().script);
    }
    GalleryView {
        id: "T08",
        name: "T08-elimination",
        title: "Elimination poof at about 8 m, hat spinning on the grass",
        tool: ActiveTool::Weapon(WeaponKind::Rifle),
        pieces,
        script,
        moment: Moment::AfterShot(28),
        expect: Expect::Kill,
    }
}
fn view_t09() -> (r: GalleryView)
    ensures
        r@ == t09_spec(),
{
    let pieces: Vec<PieceSlot> = vec![PieceSlot::wall(GridCell::new(6, 7, 0), Facing::West), PieceSlot::wall(GridCell::new(6, 7, 0), Facing::North), PieceSlot::wall(GridCell::new(6, 7, 0), Facing::East), PieceSlot::ramp(GridCell::new(6, 7, 0), Facing::North), PieceSlot::floor(GridCell::new(6, 7, 1))];
    let script: Vec<(u32, Act)> = Vec::new();
    proof {
        assert(pieces@ =~= t09_spec().pieces);
        assert(script@ =~= t09_spec().script);
    }
    GalleryView {
        id: "T09",
        name: "T09-fort",
        title: "A 1×1 fort (3 brick walls, a ramp inside, a floor on top) with a blue ghost wall beside it; wall slot selected",
        tool: ActiveTool::Build(PieceKind::Wall),
        pieces,
        script,
        moment: Moment::Settled(SETTLE),
        expect: Expect::GhostSlot(PieceSlot::wall(GridCell::new(7, 8, 0), Facing::North)),
    }
}
fn view_t10() -> (r: GalleryView)
    ensures
        r@ == t10_spec(),
{
    let pieces: Vec<PieceSlot> = Vec::new();
    let script: Vec<(u32, Act)> = Vec::new();
    proof {
        assert(pieces@ =~= t10_spec().pieces);
        assert(script@ =~= t10_spec().script);
    }
    GalleryView {
        id: "T10",
        name: "T10-station-up",
        title: "Looking up at the station",
        tool: ActiveTool::Weapon(WeaponKind::Rifle),
        pieces,
        script,
        moment: Moment::Settled(SETTLE),
        expect: Expect::Still,
    }
}
fn view_t11() -> (r: GalleryView)
    ensures
        r@ == t11_spec(),
{
    let pieces: Vec<PieceSlot> = Vec::new();
    let script: Vec<(u32, Act)> = Vec::new();
    proof {
        assert(pieces@ =~= t11_spec().pieces);
        assert(script@ =~= t11_spec().script);
    }
    GalleryView {
        id: "T11",
        name: "T11-island-edge",
        title: "The island edge and barrier",
        tool: ActiveTool::Weapon(WeaponKind::Rifle),
        pieces,
        script,
        moment: Moment::Settled(SETTLE),
        expect: Expect::Still,
    }
}
fn view_t12() -> (r: GalleryView)
    ensures
        r@ == t12_spec(),
{
    let pieces: Vec<PieceSlot> = Vec::new();
    let script: Vec<(u32, Act)> = vec![(24u32, Act::Pause(true))];
    proof {
        assert(pieces@ =~= t12_spec().pieces);
        assert(script@ =~= t12_spec().script);
    }
    GalleryView {
        id: "T12",
        name: "T12-pause-menu",
        title: "The pause menu",
        tool: ActiveTool::Weapon(WeaponKind::Rifle),
        pieces,
        script,
        moment: Moment::Settled(SETTLE),
        expect: Expect::Paused,
    }
}

/// The twelve views, T01 to T12, each matched to its target's composition.
pub fn views() -> (r: Vec<GalleryView>)
    ensures
        r@.len() == 12,
        forall|i: int| 0 <= i < 12 ==> #[trigger] r@[i]@ == views_spec()[i],
{
    let r: Vec<GalleryView> = vec![
        view_t01(),
        view_t02(),
        view_t03(),
        view_t04(),
        view_t05(),
        view_t06(),
        view_t07(),
        view_t08(),
        view_t09(),
        view_t10(),
        view_t11(),
        view_t12(),
    ];
    r
}

} // verus!
