use pieced::rng::Rng;
use pieced::scenario::gallery::{views, Expect};
use pieced::scenario::gallery::{
    Act, GalleryFrame, GalleryRunner, GalleryStep, Moment, ShotReport, ViewPlan, HOLD,
    VIEW_TIMEOUT,
};
use pieced::scenario::perf::{
    shuffled_cycle, Activity, Load, PieceLedger, KEEP_LIVE_PIECES, MAX_LIVE_PIECES, SEED,
};
use pieced::scenario::sky_check::{band_fits, frame_diff, Frame};
use pieced::scenario::{
    director_for, flag_value, DirectorStatus, DriveStep, ScenarioArgs, ScenarioKind,
    ScenarioProgress, EXIT_COUNTDOWN_FRAMES,
};
use pieced::shared::{ActiveTool, PieceChange, PieceKind, WeaponKind};

fn strings(args: &[&str]) -> Vec<String> {
    args.iter().map(|s| s.to_string()).collect()
}

// ---------------------------------------------------------------------------
// Sky band comparison
// ---------------------------------------------------------------------------

fn frame(w: u32, h: u32, f: impl Fn(u32, u32) -> [u8; 3]) -> Frame {
    let mut rgb = Vec::new();
    for y in 0..h {
        for x in 0..w {
            rgb.extend(f(x, y));
        }
    }
    Frame { name: String::new(), width: w, height: h, rgb }
}

/// The comparison as the sky check reports it: rows of a `band` fraction of
/// the height, then (mean absolute channel difference, changed fraction).
fn diff(a: &Frame, b: &Frame, band: f32, threshold: u8) -> Option<(f64, f64)> {
    let rows = (a.height as f32 * band).round() as usize;
    frame_diff(a, b, rows, threshold).map(|c| {
        (c.sum as f64 / (c.pixels * 3) as f64, c.changed as f64 / c.pixels as f64)
    })
}

#[test]
fn frame_diff_counts_changes_in_the_sky_band_only() {
    let a = frame(10, 10, |_, _| [20, 30, 40]);
    // Only the bottom half changes: outside a 0.5 band.
    let b = frame(10, 10, |_, y| if y >= 5 { [200, 30, 40] } else { [20, 30, 40] });
    let (mean_abs, changed) = diff(&a, &b, 0.5, 12).unwrap();
    assert_eq!(changed, 0.0);
    assert_eq!(mean_abs, 0.0);
    // One changed pixel in the band's 50.
    let c = frame(10, 10, |x, y| if (x, y) == (3, 1) { [20, 90, 40] } else { [20, 30, 40] });
    let (mean_abs, changed) = diff(&a, &c, 0.5, 12).unwrap();
    assert!((changed - 1.0 / 50.0).abs() < 1e-9);
    assert!((mean_abs - 60.0 / 150.0).abs() < 1e-9);
    // Small noise stays under the threshold.
    let n = frame(10, 10, |_, _| [25, 30, 40]);
    assert_eq!(diff(&a, &n, 0.5, 12).unwrap().1, 0.0);
    // Sizes must match.
    assert!(diff(&a, &frame(5, 10, |_, _| [0; 3]), 0.5, 12).is_none());
}

#[test]
fn frame_diff_counts_exactly() {
    let a = frame(4, 2, |_, _| [10, 10, 10]);
    let b = frame(4, 2, |x, _| [10 + x as u8 * 10, 10, 0]);
    let c = frame_diff(&a, &b, 2, 15).unwrap();
    // Per pixel: red moves 0, 10, 20, 30 and blue always 10.
    assert_eq!(c.pixels, 8);
    assert_eq!(c.sum, 2 * (0 + 10 + 20 + 30) + 8 * 10);
    assert_eq!(c.changed, 4);
    // More rows than the frame has: the whole frame.
    assert_eq!(frame_diff(&a, &b, 99, 15), Some(c));
    // No rows: nothing to compare.
    assert!(frame_diff(&a, &b, 0, 15).is_none());
    // The comparison only reads what the frames hold.
    assert!(band_fits(&a, &b, 2));
    let short = Frame { rgb: vec![0; 9], ..a.clone() };
    assert!(!band_fits(&short, &short, 2));
    assert!(band_fits(&short, &b, 2), "different sizes are refused before any read");
    // Swapping the frames changes nothing.
    assert_eq!(frame_diff(&b, &a, 2, 15), Some(c));
    // Identical frames never differ.
    let same = frame_diff(&b, &b, 2, 0).unwrap();
    assert_eq!((same.sum, same.changed), (0, 0));
}

// ---------------------------------------------------------------------------
// Command line and session bookkeeping
// ---------------------------------------------------------------------------

#[test]
fn scenario_request_reads_its_flags() {
    let args = strings(&[
        "pieced", "--scenario", "perf", "--seconds", "30", "--warmup", "2.5", "--evidence", "out",
    ]);
    let a = ScenarioArgs::from_args(&args).unwrap();
    assert_eq!(a.name, "perf");
    assert_eq!(a.out.as_deref(), Some("out"));
    assert_eq!(a.seconds.as_deref(), Some("30"));
    assert_eq!(a.warmup.as_deref(), Some("2.5"));
    let bare = ScenarioArgs::from_args(&strings(&["pieced", "--scenario", "smoke"])).unwrap();
    assert_eq!(bare.name, "smoke");
    assert!(bare.out.is_none() && bare.seconds.is_none() && bare.warmup.is_none());
    assert!(ScenarioArgs::from_args(&strings(&["pieced", "--seconds", "3"])).is_none());
    assert!(ScenarioArgs::from_args(&strings(&["pieced", "--scenario"])).is_none());
}

#[test]
fn flag_value_takes_the_first_occurrence() {
    let args = strings(&["a", "--x", "1", "--x", "2"]);
    assert_eq!(flag_value(&args, "--x").as_deref(), Some("1"));
    assert_eq!(flag_value(&args, "--y"), None);
    assert_eq!(flag_value(&strings(&["--x"]), "--x"), None);
}

#[test]
fn scenario_names_pick_their_sessions() {
    assert_eq!(director_for("smoke"), Some(ScenarioKind::Smoke));
    assert_eq!(director_for("gallery"), Some(ScenarioKind::Gallery));
    assert_eq!(director_for("perf"), Some(ScenarioKind::Perf));
    assert_eq!(director_for("ttk"), Some(ScenarioKind::Ttk));
    assert_eq!(director_for("latency"), Some(ScenarioKind::Latency));
    assert_eq!(director_for("fx_check"), Some(ScenarioKind::FxCheck));
    assert_eq!(director_for("Perf"), None);
    assert_eq!(director_for(""), None);
}

#[test]
fn finished_session_waits_for_readbacks_then_exits() {
    let mut p = ScenarioProgress::new();
    assert_eq!(p.begin_frame(), DriveStep::RunDirector);
    p.director_reported(DirectorStatus::Running);
    assert_eq!(p.begin_frame(), DriveStep::RunDirector);
    p.director_reported(DirectorStatus::Done);
    for _ in 0..EXIT_COUNTDOWN_FRAMES {
        assert_eq!(p.begin_frame(), DriveStep::Wait);
    }
    assert_eq!(p.begin_frame(), DriveStep::Finish);
    assert_eq!(p.frame(), 2 + EXIT_COUNTDOWN_FRAMES as u64 + 1);
}

// ---------------------------------------------------------------------------
// The perf session
// ---------------------------------------------------------------------------

#[test]
fn each_cycle_plays_every_activity_once() {
    let mut rng = Rng::new(SEED);
    for _ in 0..20 {
        let mut cycle = shuffled_cycle(&mut rng);
        assert_eq!(cycle.len(), 9);
        cycle.sort_by_key(|a| a.index());
        assert_eq!(cycle, Activity::ALL.to_vec());
    }
}

#[test]
fn cycles_are_seeded() {
    let mut a = Rng::new(SEED);
    let mut b = Rng::new(SEED);
    assert_eq!(shuffled_cycle(&mut a), shuffled_cycle(&mut b));
    assert_eq!(a, b);
    // Eight draws per cycle.
    let mut c = Rng::new(SEED);
    shuffled_cycle(&mut c);
    let mut d = Rng::new(SEED);
    for _ in 0..8 {
        d.next_u64();
    }
    assert_eq!(c, d);
    // Successive cycles differ.
    let first = shuffled_cycle(&mut a);
    let second = shuffled_cycle(&mut a);
    assert_ne!(first, second);
}

#[test]
fn activities_have_names_indices_and_durations() {
    let names: Vec<&str> = Activity::ALL.iter().map(|a| a.name()).collect();
    assert_eq!(
        names,
        ["run", "slide", "jump", "box_up", "ramp_rush", "spray", "pump", "switch_guns", "break_pieces"]
    );
    for (i, a) in Activity::ALL.iter().enumerate() {
        assert_eq!(a.index(), i);
        let (lo, hi) = a.duration_ms();
        assert!(lo <= hi);
    }
    assert_eq!(Activity::BoxUp.duration_ms(), (1600, 1600));
    assert_eq!(Activity::Run.duration_ms(), (3000, 5000));
}

#[test]
fn load_differences_never_go_negative() {
    let later = Load { shots: 10, hits: 4, headshots: 1, eliminations: 0, placed: 7, destroyed: 2, cleanup_breaks: 3 };
    let earlier = Load { shots: 3, hits: 5, headshots: 1, eliminations: 2, placed: 0, destroyed: 2, cleanup_breaks: 1 };
    assert_eq!(
        later.minus(earlier),
        Load { shots: 7, hits: 0, headshots: 0, eliminations: 0, placed: 7, destroyed: 0, cleanup_breaks: 2 }
    );
    assert_eq!(later.minus(Load::default()), later);
}

#[test]
fn oldest_pieces_break_when_too_many_stand() {
    let mut ledger = PieceLedger::new();
    for id in 0..(MAX_LIVE_PIECES as u64) {
        ledger.note(id, PieceChange::Placed);
    }
    ledger.note(99, PieceChange::Cracked(1));
    let all = vec![true; MAX_LIVE_PIECES];
    ledger.keep_standing(&all);
    assert!(ledger.cleanup().is_empty(), "exactly the limit is fine");
    ledger.note(1000, PieceChange::Placed);
    ledger.keep_standing(&vec![true; MAX_LIVE_PIECES + 1]);
    assert_eq!(ledger.max_live, MAX_LIVE_PIECES + 1);
    let broken = ledger.cleanup();
    let expected: Vec<u64> = (0..(MAX_LIVE_PIECES + 1 - KEEP_LIVE_PIECES) as u64).collect();
    assert_eq!(broken, expected);
    assert_eq!(ledger.live.len(), KEEP_LIVE_PIECES);
    assert_eq!(*ledger.live.back().unwrap(), 1000);
    assert_eq!(ledger.cleanup_breaks as usize, broken.len());
    assert_eq!(ledger.placed as usize, MAX_LIVE_PIECES + 1);
}

#[test]
fn fallen_pieces_leave_the_ledger() {
    let mut ledger = PieceLedger::new();
    for id in [5u64, 6, 7, 8] {
        ledger.note(id, PieceChange::Placed);
    }
    ledger.note(6, PieceChange::Destroyed);
    ledger.keep_standing(&[true, false, true, false]);
    assert_eq!(ledger.live, vec![5, 7]);
    assert_eq!(ledger.max_live, 2);
    assert_eq!(ledger.destroyed, 1);
    ledger.keep_standing(&[false, false]);
    assert!(ledger.live.is_empty());
    assert_eq!(ledger.max_live, 2);
}

// ---------------------------------------------------------------------------
// The gallery's schedule
// ---------------------------------------------------------------------------

fn plan(name: &str, script: Vec<(u32, Act)>, moment: Moment) -> ViewPlan {
    ViewPlan { name: name.to_string(), script, moment }
}

fn step(runner: &mut GalleryRunner, fired: u32) -> GalleryFrame {
    let report = ShotReport { fired, ..ShotReport::default() };
    assert!(runner.has_room(&report));
    runner.frame(&report)
}

#[test]
fn settled_view_freezes_captures_and_moves_on() {
    let mut r = GalleryRunner::new(
        vec![plan("T01-spawn", vec![], Moment::Settled(3)), plan("T02-next", vec![], Moment::Settled(1))],
        2,
    );
    assert_eq!(step(&mut r, 0).step, GalleryStep::LeadIn);
    assert_eq!(step(&mut r, 0).step, GalleryStep::LeadIn);
    let f = step(&mut r, 0);
    assert!(f.start);
    assert_eq!(f.step, GalleryStep::Setup);
    assert_eq!(step(&mut r, 0).step, GalleryStep::Live { acts: vec![], freeze: None });
    assert_eq!(step(&mut r, 0).step, GalleryStep::Live { acts: vec![], freeze: None });
    assert_eq!(step(&mut r, 0).step, GalleryStep::Live { acts: vec![], freeze: Some(false) });
    assert_eq!(r.records()[0].moment_frame, Some(3));
    assert!(!r.records()[0].missed);
    let f = step(&mut r, 0);
    assert!(!f.start);
    assert_eq!(f.step, GalleryStep::Frozen { capture: true, teardown: false });
    assert_eq!(r.take_captures(), vec!["T01-spawn".to_string()]);
    assert!(r.take_captures().is_empty());
    for _ in 0..HOLD {
        assert_eq!(step(&mut r, 0).step, GalleryStep::Frozen { capture: false, teardown: false });
    }
    assert_eq!(step(&mut r, 0).step, GalleryStep::Frozen { capture: false, teardown: true });
    assert!(!r.is_done());
    assert_eq!(step(&mut r, 0).step, GalleryStep::Setup);
    assert_eq!(step(&mut r, 0).step, GalleryStep::Live { acts: vec![], freeze: Some(false) });
    step(&mut r, 0);
    for _ in 0..HOLD + 1 {
        step(&mut r, 0);
    }
    assert!(r.is_done());
    assert_eq!(step(&mut r, 0).step, GalleryStep::Done);
    assert_eq!(r.take_captures(), vec!["T02-next".to_string()]);
    assert_eq!(r.records().len(), 2);
}

#[test]
fn scripted_actions_run_on_their_frames_one_shot_per_frame() {
    let rifle = ActiveTool::Weapon(WeaponKind::Rifle);
    let wall = ActiveTool::Build(PieceKind::Wall);
    let script = vec![(1, Act::Select(rifle)), (2, Act::Fire), (2, Act::Fire), (2, Act::Select(wall)), (4, Act::Pause(true))];
    let mut r = GalleryRunner::new(vec![plan("T05", script, Moment::Settled(10))], 0);
    assert_eq!(step(&mut r, 0).step, GalleryStep::Setup);
    assert_eq!(step(&mut r, 0).step, GalleryStep::Live { acts: vec![Act::Select(rifle)], freeze: None });
    let f = step(&mut r, 0);
    assert_eq!(f.step, GalleryStep::Live { acts: vec![Act::Fire], freeze: None });
    assert!(!f.release_fire);
    let f = step(&mut r, 0);
    assert!(f.release_fire, "last frame's shot is released");
    assert_eq!(f.step, GalleryStep::Live { acts: vec![Act::Fire], freeze: None });
    let f = step(&mut r, 0);
    assert!(f.release_fire);
    assert_eq!(f.step, GalleryStep::Live { acts: vec![Act::Select(wall), Act::Pause(true)], freeze: None });
    let f = step(&mut r, 0);
    assert!(!f.release_fire);
    assert_eq!(f.step, GalleryStep::Live { acts: vec![], freeze: None });
}

#[test]
fn after_shot_moment_counts_from_the_shot_frame() {
    let mut r = GalleryRunner::new(vec![plan("T10", vec![(1, Act::Fire)], Moment::AfterShot(2))], 0);
    assert_eq!(step(&mut r, 0).step, GalleryStep::Setup); // frame 1
    assert_eq!(step(&mut r, 0).step, GalleryStep::Live { acts: vec![Act::Fire], freeze: None }); // frame 2
    // The shot is read the next frame: it fired on frame 2.
    assert_eq!(step(&mut r, 1).step, GalleryStep::Live { acts: vec![], freeze: None }); // frame 3
    assert_eq!(step(&mut r, 0).step, GalleryStep::Live { acts: vec![], freeze: Some(false) }); // frame 4
    assert_eq!(r.records()[0].shots, 1);
    assert_eq!(r.records()[0].moment_frame, Some(3));
}

#[test]
fn a_view_without_its_shot_times_out() {
    let mut r = GalleryRunner::new(vec![plan("T11", vec![], Moment::AfterShot(2))], 0);
    assert_eq!(step(&mut r, 5).step, GalleryStep::Setup);
    for _ in 1..VIEW_TIMEOUT {
        assert_eq!(step(&mut r, 0).step, GalleryStep::Live { acts: vec![], freeze: None });
    }
    assert_eq!(step(&mut r, 0).step, GalleryStep::Live { acts: vec![], freeze: Some(true) });
    let record = r.records()[0];
    assert!(record.missed);
    assert_eq!(record.moment_frame, Some(VIEW_TIMEOUT));
    assert_eq!(record.shots, 0, "shots read while setting up are not counted");
}

#[test]
fn hits_are_tallied_to_the_current_view() {
    let mut r = GalleryRunner::new(vec![plan("T12", vec![], Moment::Settled(5))], 0);
    step(&mut r, 0);
    let report = ShotReport { fired: 2, hits: 2, headshots: 1, shield_breaks: 1, kills: 1 };
    r.frame(&report);
    r.frame(&report);
    let t = r.records()[0];
    assert_eq!((t.shots, t.hits, t.headshots, t.shield_breaks, t.kills), (4, 4, 2, 2, 2));
    assert_eq!(r.views()[0].name, "T12");
}

#[test]
fn an_empty_gallery_is_done_after_its_lead_in() {
    let mut r = GalleryRunner::new(vec![], 1);
    assert!(r.is_done());
    assert_eq!(step(&mut r, 0).step, GalleryStep::LeadIn);
    let f = step(&mut r, 0);
    assert!(f.start);
    assert_eq!(f.step, GalleryStep::Done);
    assert!(!step(&mut r, 0).start);
}

// ---------------------------------------------------------------------------
// The time-to-kill session's steps
// ---------------------------------------------------------------------------

use pieced::scenario::ttk::{TtkDecision, TtkEvent, TtkNote, TtkStep, TtkSteps, KILLS, PUMP_SHOTS};

/// Runs frames with `event` until the step changes (or `limit` frames pass);
/// returns the decision that changed it.
fn run_until_change(s: &mut TtkSteps, event: TtkEvent, limit: u32) -> Option<TtkDecision> {
    for _ in 0..limit {
        s.begin_frame();
        let d = s.decide(&event);
        if d.next.is_some() {
            return Some(d);
        }
    }
    None
}

#[test]
fn ttk_session_runs_kills_then_pumps_then_the_wall() {
    let mut s = TtkSteps::new();
    let ready = TtkEvent { past_warmup: true, gun_ready: true, dummy_standing: true, ..TtkEvent::default() };
    assert!(run_until_change(&mut s, TtkEvent::default(), 50).is_none(), "waits for the warm-up");
    assert_eq!(run_until_change(&mut s, ready, 1).unwrap().next, Some(TtkStep::RifleSetup));
    for k in 1..=KILLS {
        let d = run_until_change(&mut s, ready, 100).unwrap();
        assert!(d.fire);
        assert_eq!(d.next, Some(TtkStep::RifleFire));
        assert_eq!(s.kills(), k);
        let kill = TtkEvent { killed: true, ..ready };
        let d = run_until_change(&mut s, kill, 1).unwrap();
        assert!(d.release);
        let expected = if k == KILLS { TtkStep::PumpSetup } else { TtkStep::RifleSetup };
        assert_eq!(d.next, Some(expected));
    }
    for p in 1..=PUMP_SHOTS {
        let d = run_until_change(&mut s, ready, 100).unwrap();
        assert_eq!((d.fire, d.next), (true, Some(TtkStep::PumpShot)));
        assert_eq!(s.pumps(), p);
        assert_eq!(run_until_change(&mut s, ready, 100).unwrap().next, Some(TtkStep::PumpSetup));
    }
    assert_eq!(run_until_change(&mut s, ready, 1).unwrap().next, Some(TtkStep::WallSetup));
    let d = run_until_change(&mut s, ready, 100).unwrap();
    assert_eq!((d.fire, d.next), (true, Some(TtkStep::WallFire)));
    let hit = TtkEvent { dummy_hit: true, ..ready };
    let d = run_until_change(&mut s, hit, 1).unwrap();
    assert_eq!((d.release, d.next, d.note), (true, Some(TtkStep::Done), None));
    let mut last = None;
    for _ in 0..11 {
        s.begin_frame();
        last = Some(s.decide(&ready));
    }
    assert_eq!(last.unwrap().status, pieced::scenario::DirectorStatus::Done);
}

#[test]
fn ttk_timeouts_move_the_session_on() {
    let mut s = TtkSteps::new();
    let start = TtkEvent { past_warmup: true, ..TtkEvent::default() };
    run_until_change(&mut s, start, 1).unwrap();
    // The gun never gets ready.
    let stuck = TtkEvent { dummy_standing: true, timed_out: true, ..TtkEvent::default() };
    let d = run_until_change(&mut s, stuck, 1).unwrap();
    assert_eq!((d.next, d.note), (Some(TtkStep::PumpSetup), Some(TtkNote::RifleSetupTimedOut)));
    let d = run_until_change(&mut s, stuck, 1).unwrap();
    assert_eq!((d.next, d.note), (Some(TtkStep::WallSetup), Some(TtkNote::PumpSetupTimedOut(0))));
    let d = run_until_change(&mut s, stuck, 1).unwrap();
    assert_eq!((d.next, d.note), (Some(TtkStep::Done), Some(TtkNote::WallSetupTimedOut)));
    // A fallen dummy holds a setup step, timeout or not.
    let mut t = TtkSteps::new();
    run_until_change(&mut t, start, 1).unwrap();
    let down = TtkEvent { timed_out: true, gun_ready: true, ..TtkEvent::default() };
    assert!(run_until_change(&mut t, down, 40).is_none());
    assert_eq!(t.step(), TtkStep::RifleSetup);
}

#[test]
fn ttk_failed_wall_ends_the_session() {
    let mut s = TtkSteps::new();
    let ready = TtkEvent { past_warmup: true, gun_ready: true, dummy_standing: true, ..TtkEvent::default() };
    run_until_change(&mut s, ready, 1).unwrap();
    let stuck = TtkEvent { dummy_standing: true, timed_out: true, ..TtkEvent::default() };
    run_until_change(&mut s, stuck, 1).unwrap();
    run_until_change(&mut s, stuck, 1).unwrap();
    assert_eq!(s.step(), TtkStep::WallSetup);
    let failed = TtkEvent { wall_failed: true, ..ready };
    let d = run_until_change(&mut s, failed, 1).unwrap();
    assert_eq!((d.fire, d.next), (false, Some(TtkStep::Done)));
    assert_eq!(d.note, Some(TtkNote::WallNotPlaced));
}

#[test]
fn the_view_table_drives_the_gallery_in_order() {
    let table = views();
    assert_eq!(table.len(), 12);
    let ids: Vec<&str> = table.iter().map(|v| v.id).collect();
    assert_eq!(ids, ["T01", "T02", "T03", "T04", "T05", "T06", "T07", "T08", "T09", "T10", "T11", "T12"]);
    for v in &table {
        assert!(v.name.starts_with(v.id));
    }
    assert_eq!(table[8].tool, ActiveTool::Build(PieceKind::Wall));
    assert_eq!(table[8].pieces.len(), 5);
    assert!(matches!(table[8].expect, Expect::GhostSlot(_)));
    assert_eq!(table[11].script, vec![(24, Act::Pause(true))]);
    assert_eq!(table[7].moment, Moment::AfterShot(28));
    // Run the schedule over the whole table; a shot fired on a Fire frame is
    // read the frame after.
    let mut runner = GalleryRunner::new(table.iter().map(|v| v.plan()).collect(), 0);
    let mut fired_last_frame = false;
    let mut frames = 0;
    loop {
        let f = step(&mut runner, if fired_last_frame { 1 } else { 0 });
        fired_last_frame = matches!(&f.step, GalleryStep::Live { acts, .. } if acts.contains(&Act::Fire));
        frames += 1;
        if f.step == GalleryStep::Done {
            break;
        }
        assert!(frames < 12 * 400);
    }
    let captured = runner.take_captures();
    let names: Vec<String> = table.iter().map(|v| v.name.to_string()).collect();
    assert_eq!(captured, names);
    assert!(runner.records().iter().all(|r| !r.missed));
    assert_eq!(runner.records()[2].shots, 1);
}

// ---------------------------------------------------------------------------
// The HUD session's phases
// ---------------------------------------------------------------------------

use pieced::scenario::hud_check::{HudAim, HudCheck, HudEvent, HudPhase, HudShot, MenuCue, Trigger};

#[test]
fn hud_session_captures_every_moment_once_in_order() {
    let mut h = HudCheck::new();
    let mut e = HudEvent { shield_up: true, ..HudEvent::default() };
    let mut t = 1_000u64;
    let f = h.update(t, &e);
    assert!(f.setup);
    assert_eq!(h.phase(), HudPhase::Fight);
    // The trigger waits 0.8 s, then holds.
    t += 500;
    let f = h.update(t, &e);
    assert_eq!(f.trigger, Trigger::Hold(false));
    assert_eq!(f.aim, HudAim::Dummy { head: false });
    t += 400;
    assert_eq!(h.update(t, &e).trigger, Trigger::Hold(true));
    e.hits = 2;
    t += 16;
    assert_eq!(h.update(t, &e).captures, vec![HudShot::FightShield]);
    e = HudEvent { shield_up: false, hits: 6, headshots: 1, eliminations: 1 };
    t += 16;
    let f = h.update(t, &e);
    assert_eq!(f.captures, vec![HudShot::Fight, HudShot::Headshot]);
    assert_eq!(f.aim, HudAim::Dummy { head: true });
    assert_eq!(h.kill_at(), Some(t));
    assert_eq!(h.phase(), HudPhase::Fight, "the kill marker needs 30 ms on screen");
    t += 30;
    let f = h.update(t, &e);
    assert_eq!(f.trigger, Trigger::Hold(false), "no firing once the kill is seen");
    assert_eq!(f.captures, vec![HudShot::Kill]);
    assert_eq!(h.phase(), HudPhase::Reload);
    t += 16;
    assert!(h.update(t, &e).reload);
    t += 900;
    assert_eq!(h.update(t, &e).captures, vec![HudShot::Reload]);
    t += 1_500;
    let f = h.update(t, &e);
    assert_eq!(f.select, Some(ActiveTool::Weapon(WeaponKind::Pump)));
    t += 600;
    let f = h.update(t, &e);
    assert_eq!((f.captures, f.select), (vec![HudShot::Pump], Some(ActiveTool::Build(PieceKind::Wall))));
    assert_eq!(h.phase(), HudPhase::Build);
    t += 500;
    assert_eq!(h.update(t, &e).captures, vec![HudShot::Build]);
    t += 100;
    assert_eq!(h.update(t, &e).trigger, Trigger::Press);
    t += 16;
    assert_eq!(h.update(t, &e).trigger, Trigger::Hold(false));
    t += 300;
    let f = h.update(t, &e);
    assert!(f.step_back);
    assert_eq!(h.phase(), HudPhase::Piece);
    t += 600;
    let f = h.update(t, &e);
    assert_eq!((f.aim, f.trigger), (HudAim::Wall, Trigger::Hold(true)));
    t += 800;
    assert_eq!(h.update(t, &e).captures, vec![HudShot::Piece]);
    assert_eq!(h.update(t, &e).menu, MenuCue::ShowMain);
    t += 400;
    assert_eq!(h.update(t, &e).captures, vec![HudShot::MenuPause]);
    t += 400;
    assert_eq!(h.update(t, &e).captures, vec![HudShot::MenuSettings]);
    t += 500;
    let f = h.update(t, &e);
    assert_eq!((f.menu, f.captures), (MenuCue::OpenPanel, vec![HudShot::TuningPanel]));
    t += 300;
    assert_eq!(h.update(t, &e).menu, MenuCue::CloseAll);
    assert_eq!(h.phase(), HudPhase::Done);
    t += 300;
    assert_eq!(h.update(t, &e).status, pieced::scenario::DirectorStatus::Done);
    let names: Vec<&str> = h.captured().iter().map(|s| s.name()).collect();
    assert_eq!(
        names,
        ["hud-fight-shield", "hud-fight", "hud-headshot", "hud-kill", "hud-reload", "hud-pump",
         "hud-build", "hud-piece", "menu-pause", "menu-settings", "tuning-panel"]
    );
}

#[test]
fn hud_fight_gives_up_after_eight_seconds() {
    let mut h = HudCheck::new();
    let e = HudEvent { shield_up: true, ..HudEvent::default() };
    h.update(0, &e);
    assert_eq!(h.update(7_999, &e).trigger, Trigger::Hold(true));
    assert_eq!(h.phase(), HudPhase::Fight);
    assert_eq!(h.update(8_000, &e).trigger, Trigger::Hold(false));
    assert_eq!(h.phase(), HudPhase::Reload);
    assert!(h.captured().is_empty());
}

// ---------------------------------------------------------------------------
// Effects tour
// ---------------------------------------------------------------------------

use pieced::scenario::fx_check::{FxAct, FxCheck, FxEvent, FxShot, FX_END_MS};

/// Runs the tour at 60 frames a second, with the rifle always ready and the
/// dummy going down at 11.6 s; gives every capture with its frame, and every
/// action seen.
fn run_fx_tour() -> (FxCheck, Vec<(u64, FxShot)>, Vec<FxAct>, u64) {
    let mut fx = FxCheck::new();
    let mut shots = Vec::new();
    let mut all = Vec::new();
    let mut frame: u64 = 0;
    loop {
        let t = frame * 1000 / 60;
        let e = FxEvent { rifle_fires_now: true, dummy_downed: t >= 11_600 };
        let out = fx.update(t, frame, &e);
        for a in &out.acts {
            if let FxAct::Snap(s) = a {
                shots.push((frame, *s));
            }
            all.push(*a);
        }
        if out.status == DirectorStatus::Done {
            return (fx, shots, all, frame);
        }
        frame += 1;
    }
}

#[test]
fn fx_tour_captures_each_moment_once_in_order() {
    let (fx, shots, all, last) = run_fx_tour();
    let order: Vec<FxShot> = shots.iter().map(|(_, s)| *s).collect();
    assert_eq!(
        order,
        vec![
            FxShot::HipIdle,
            FxShot::RifleFire,
            FxShot::RifleFireAfter,
            FxShot::RifleAds,
            FxShot::RifleAdsFire,
            FxShot::ReloadDrop,
            FxShot::ReloadInsert,
            FxShot::SwitchMid,
            FxShot::PumpBlast,
            FxShot::PumpBlastAfter,
            FxShot::PumpRack,
            FxShot::PumpReload,
            FxShot::PieceHits,
            FxShot::PieceBreakA,
            FxShot::PieceBreakB,
            FxShot::PieceBreakC,
            FxShot::ElimA,
            FxShot::ElimB,
            FxShot::ElimC,
            FxShot::ToBuildMid,
            FxShot::BuildMode,
        ]
    );
    // Later captures land the given number of frames after their step.
    let at = |s: FxShot| shots.iter().find(|(_, x)| *x == s).unwrap().0;
    assert_eq!(at(FxShot::HipIdle), 72);
    assert_eq!(at(FxShot::RifleFireAfter), at(FxShot::RifleFire) + 2);
    assert_eq!(at(FxShot::PumpBlast), 390);
    assert_eq!(at(FxShot::PumpBlastAfter), 393);
    assert_eq!(at(FxShot::PumpRack), 408);
    assert_eq!(at(FxShot::PieceBreakA), 588 + 8);
    assert_eq!(at(FxShot::PieceBreakB), 588 + 22);
    assert_eq!(at(FxShot::PieceBreakC), 588 + 50);
    assert_eq!(fx.kill_frame(), Some(696));
    assert_eq!(at(FxShot::ElimA), 696);
    assert_eq!(at(FxShot::ElimB), 703);
    assert_eq!(at(FxShot::ElimC), 714);
    // The wall is placed and broken once; the session ends at 13.8 s.
    assert_eq!(all.iter().filter(|a| **a == FxAct::PlaceWall).count(), 1);
    assert_eq!(all.iter().filter(|a| **a == FxAct::BreakWall).count(), 1);
    assert_eq!(last * 1000 / 60, FX_END_MS);
    assert_eq!(FxShot::ElimC.name(), "11c_elim_c");
}

#[test]
fn fx_rifle_capture_waits_for_the_shot() {
    // While the rifle is not ready the capture waits; the trigger stays held.
    let mut fx = FxCheck::new();
    let idle = FxEvent { rifle_fires_now: false, dummy_downed: false };
    let out = fx.update(1950, 117, &idle);
    assert!(out.acts.contains(&FxAct::Fire(true)));
    assert!(!out.acts.contains(&FxAct::Snap(FxShot::RifleFire)));
    let ready = FxEvent { rifle_fires_now: true, dummy_downed: false };
    let out = fx.update(1967, 118, &ready);
    assert!(out.acts.contains(&FxAct::Snap(FxShot::RifleFire)));
    let out = fx.update(1983, 119, &ready);
    assert!(!out.acts.contains(&FxAct::Snap(FxShot::RifleFire)));
    let out = fx.update(2000, 120, &ready);
    assert_eq!(out.acts[0], FxAct::Snap(FxShot::RifleFireAfter));
    assert_eq!(out.status, DirectorStatus::Running);
}
