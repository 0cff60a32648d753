use pieced::look::halo::{pack_halo, unpack_halo, HaloBytes};
use pieced::look::settings::{
    hull_visible, mod_outline_requested, msaa_for, preset_look, resolve_look, LookSettings, Msaa,
    OutlineBackend,
};
use pieced::look::warmup::{
    slot_cell, warmup_verdict, WarmupFrame, WarmupState, WarmupVerdict, MIN_WAIT_FRAMES,
    TIMEOUT_FRAMES, WARMUP_GATE,
};
use pieced::perf_knobs::PerfKnobs;
use pieced::render::QualityPreset;

// ---------------------------------------------------------------------------
// Quality presets and knobs
// ---------------------------------------------------------------------------

#[test]
fn presets_trade_quality_for_headroom() {
    let battery = preset_look(QualityPreset::Battery);
    let plugged = preset_look(QualityPreset::PluggedIn);
    assert_eq!(battery.outline, OutlineBackend::Hull);
    assert_eq!(battery.msaa_samples, plugged.msaa_samples);
    assert!(battery.pixel_budget_percent < plugged.pixel_budget_percent);
    assert!(!battery.dense_grass && plugged.dense_grass);
    assert_eq!(QualityPreset::default(), QualityPreset::Battery);
}

#[test]
fn knobs_override_the_preset() {
    let knobs = PerfKnobs::parse("outline=off,far=off,halos=off,blobs=off,skyrot=off,msaa=2");
    let s = resolve_look(QualityPreset::Battery, Some(&knobs), false);
    assert_eq!(s.outline, OutlineBackend::Off);
    assert_eq!(s.msaa, Msaa::Sample2);
    assert_eq!(s.viewmodel_msaa, Msaa::Sample2, "both cameras share MSAA");
    assert!(!s.far && !s.halos && !s.blobs && !s.sky_rotation);

    let none = resolve_look(QualityPreset::Battery, None, false);
    assert_eq!(none.outline, OutlineBackend::Hull);
    assert_eq!(none.msaa, Msaa::Sample4);
    assert!(none.far && none.halos && none.blobs && none.sky_rotation);
}

#[test]
fn mod_outlines_need_their_plugin() {
    let knobs = PerfKnobs::parse("outline=mod");
    let without = resolve_look(QualityPreset::Battery, Some(&knobs), false);
    assert_eq!(without.outline, OutlineBackend::Hull);
    let with = resolve_look(QualityPreset::Battery, Some(&knobs), true);
    assert_eq!(with.outline, OutlineBackend::Mod);
}

#[test]
fn viewmodel_msaa_knob_splits_the_cameras() {
    let knobs = PerfKnobs::parse("vmmsaa=1");
    let s = resolve_look(QualityPreset::Battery, Some(&knobs), false);
    assert_eq!(s.msaa, Msaa::Sample4);
    assert_eq!(s.viewmodel_msaa, Msaa::Off);
}

#[test]
fn msaa_counts_map_to_settings() {
    assert_eq!(msaa_for(0), Msaa::Off);
    assert_eq!(msaa_for(1), Msaa::Off);
    assert_eq!(msaa_for(2), Msaa::Sample2);
    assert_eq!(msaa_for(4), Msaa::Sample4);
    assert_eq!(msaa_for(8), Msaa::Sample8);
    assert_eq!(msaa_for(3), Msaa::Sample4);
    assert_eq!(msaa_for(16), Msaa::Sample4);
}

#[test]
fn plugged_in_budget_is_half_again_the_battery_one() {
    assert_eq!(preset_look(QualityPreset::Battery).pixel_budget_percent, 100);
    assert_eq!(preset_look(QualityPreset::PluggedIn).pixel_budget_percent, 150);
}

#[test]
fn default_look_is_the_battery_preset_with_everything_on() {
    let d = LookSettings::default();
    assert_eq!(d, resolve_look(QualityPreset::Battery, None, false));
    assert_eq!(d.outline, OutlineBackend::Hull);
    assert_eq!(d.viewmodel_msaa, d.msaa);
    assert!(!d.dense_grass);
    let plugged = resolve_look(QualityPreset::PluggedIn, None, true);
    assert!(plugged.dense_grass);
}

#[test]
fn outline_values_parse() {
    assert_eq!(OutlineBackend::parse("mod"), Some(OutlineBackend::Mod));
    assert_eq!(OutlineBackend::parse("hull"), Some(OutlineBackend::Hull));
    assert_eq!(OutlineBackend::parse("on"), Some(OutlineBackend::Hull));
    assert_eq!(OutlineBackend::parse("off"), Some(OutlineBackend::Off));
    assert_eq!(OutlineBackend::parse("0"), Some(OutlineBackend::Off));
    assert_eq!(OutlineBackend::parse("false"), Some(OutlineBackend::Off));
    assert_eq!(OutlineBackend::parse("Hull"), None);
    assert_eq!(OutlineBackend::parse(""), None);
    assert_eq!(OutlineBackend::default(), OutlineBackend::Hull);
}

#[test]
fn mod_outlines_are_added_only_when_asked_for() {
    assert!(mod_outline_requested(Some(&PerfKnobs::parse("far=off,outline=mod"))));
    assert!(!mod_outline_requested(Some(&PerfKnobs::parse("outline=hull"))));
    assert!(!mod_outline_requested(Some(&PerfKnobs::parse("outline=mod,outline=off"))));
    assert!(!mod_outline_requested(None));
    assert!(hull_visible(OutlineBackend::Hull));
    assert!(!hull_visible(OutlineBackend::Mod));
    assert!(!hull_visible(OutlineBackend::Off));
}

#[test]
fn later_knob_wins() {
    let knobs = PerfKnobs::parse("outline=off,outline=hull,msaa=8,msaa=2");
    let s = resolve_look(QualityPreset::Battery, Some(&knobs), false);
    assert_eq!(s.outline, OutlineBackend::Hull);
    assert_eq!(s.msaa, Msaa::Sample2);
}

// ---------------------------------------------------------------------------
// Halo tags
// ---------------------------------------------------------------------------

/// The halo's strongest intensity; a tag stores intensity in 1/255 of it.
const HALO_MAX_INTENSITY: f32 = 8.0;

fn byte(v: f32) -> u8 {
    (v.clamp(0.0, 1.0) * 255.0).round() as u8
}

fn pack(color: [f32; 3], intensity: f32) -> u32 {
    pack_halo(HaloBytes {
        red: byte(color[0]),
        green: byte(color[1]),
        blue: byte(color[2]),
        intensity: byte(intensity.clamp(0.0, HALO_MAX_INTENSITY) / HALO_MAX_INTENSITY),
    })
}

fn unpack(tag: u32) -> ([f32; 3], f32) {
    let b = unpack_halo(tag);
    let f = |v: u8| v as f32 / 255.0;
    (
        [f(b.red), f(b.green), f(b.blue)],
        f(b.intensity) * HALO_MAX_INTENSITY,
    )
}

#[test]
fn color_and_intensity_round_trip_through_the_tag() {
    let color = [0.3, 0.7, 1.0];
    let (c, i) = unpack(pack(color, 2.5));
    assert!((c[0] - 0.3).abs() < 0.003 && (c[1] - 0.7).abs() < 0.003);
    assert!((c[2] - 1.0).abs() < 0.003);
    assert!((i - 2.5).abs() < HALO_MAX_INTENSITY / 255.0);
    let (_, clamped) = unpack(pack(color, 100.0));
    assert_eq!(clamped, HALO_MAX_INTENSITY);
    assert_eq!(unpack(pack([0.0, 0.0, 0.0], 0.0)).1, 0.0);
}

#[test]
fn tag_bytes_sit_red_lowest_intensity_highest() {
    let b = HaloBytes { red: 0x11, green: 0x22, blue: 0x33, intensity: 0x44 };
    assert_eq!(pack_halo(b), 0x4433_2211);
    assert_eq!(unpack_halo(0x4433_2211), b);
    assert_eq!(unpack_halo(u32::MAX), HaloBytes { red: 255, green: 255, blue: 255, intensity: 255 });
    for tag in [0u32, 1, 0x100, 0xDEAD_BEEF, 0x8000_0000] {
        assert_eq!(pack_halo(unpack_halo(tag)), tag);
    }
}

// ---------------------------------------------------------------------------
// Pipeline warm-up
// ---------------------------------------------------------------------------

#[test]
fn verdict_waits_for_every_item_to_draw_three_times() {
    let (wait, done, timed_out) = (WarmupVerdict::Wait, WarmupVerdict::Done, WarmupVerdict::TimedOut);
    assert_eq!(warmup_verdict(1, 2, &[3, 2]), wait);
    assert_eq!(warmup_verdict(5, 2, &[3, 3]), done);
    assert_eq!(warmup_verdict(5, 3, &[3, 3]), wait, "one still unspawned");
    assert_eq!(warmup_verdict(1, 1, &[4]), done);
    // Nothing registered: open after a short grace period.
    assert_eq!(warmup_verdict(1, 0, &[]), wait);
    assert_eq!(warmup_verdict(MIN_WAIT_FRAMES, 0, &[]), done);
    // Never hang Boot.
    assert_eq!(warmup_verdict(TIMEOUT_FRAMES, 2, &[0, 0]), timed_out);
}

/// A boot gate: open while no key is held.
#[derive(Default)]
struct Gate {
    held: Vec<&'static str>,
}

impl Gate {
    fn hold(&mut self, key: &'static str) {
        if !self.held.contains(&key) {
            self.held.push(key);
        }
    }
    fn release(&mut self, key: &'static str) {
        self.held.retain(|k| *k != key);
    }
    fn is_held(&self, key: &str) -> bool {
        self.held.contains(&key)
    }
    fn is_open(&self) -> bool {
        self.held.is_empty()
    }
}

/// The warm-up as the game runs it: spawned items with their rendered-frame
/// counts and whether the renderer drew them, the Boot gate and the state.
struct WarmupWorld {
    gate: Gate,
    state: WarmupState,
    /// (item id, rendered frames, drawn)
    items: Vec<(usize, u32, bool)>,
    next_id: usize,
}

impl WarmupWorld {
    fn new() -> Self {
        let mut gate = Gate::default();
        gate.hold(WARMUP_GATE);
        WarmupWorld { gate, state: WarmupState::new(), items: Vec::new(), next_id: 0 }
    }

    fn register(&mut self, n: usize) -> Vec<usize> {
        (0..n)
            .map(|_| {
                self.gate.hold(WARMUP_GATE);
                self.state.add();
                let id = self.next_id;
                self.next_id += 1;
                self.items.push((id, 0, false));
                id
            })
            .collect()
    }

    fn draw(&mut self, ids: &[usize]) {
        for item in &mut self.items {
            if ids.contains(&item.0) {
                item.2 = true;
            }
        }
    }

    fn rendered(&self, id: usize) -> Option<u32> {
        self.items.iter().find(|i| i.0 == id).map(|i| i.1)
    }

    fn update(&mut self) {
        let mut rendered: Vec<u32> = self.items.iter().map(|i| i.1).collect();
        let visible: Vec<bool> = self.items.iter().map(|i| i.2).collect();
        let step = self.state.frame(self.gate.is_held(WARMUP_GATE), &mut rendered, &visible);
        for (item, count) in self.items.iter_mut().zip(rendered) {
            item.1 = count;
        }
        if let WarmupFrame::Finished { .. } = step {
            self.items.clear();
            self.gate.release(WARMUP_GATE);
        }
    }
}

#[test]
fn gate_opens_after_every_item_rendered_three_frames() {
    let mut app = WarmupWorld::new();
    let items = app.register(2);
    // Frame 1: nothing drawn yet (the renderer hasn't seen them).
    app.update();
    assert!(!app.gate.is_open());
    // One item draws from now on, the other one frame later.
    app.draw(&items[..1]);
    app.update();
    app.draw(&items[1..]);
    app.update();
    app.update();
    assert!(!app.gate.is_open(), "second item has only drawn twice");
    assert_eq!(app.rendered(items[1]), Some(2));
    app.update();
    assert!(app.gate.is_open());
    // Items are cleaned up.
    app.update();
    assert!(items.iter().all(|&e| app.rendered(e).is_none()));
}

#[test]
fn late_registration_holds_the_gate_again() {
    let mut app = WarmupWorld::new();
    let first = app.register(1);
    app.draw(&first);
    for _ in 0..4 {
        app.update();
    }
    assert!(app.gate.is_open());
    // A module registers more (say, after its models load) and releases its
    // own hold in the same breath: the warm-up gate is already held again.
    app.gate.hold("models");
    app.register(1);
    app.gate.release("models");
    assert!(!app.gate.is_open());
    app.update();
    assert!(!app.gate.is_open());
    let late: Vec<usize> = app.items.iter().map(|i| i.0).collect();
    assert_eq!(late.len(), 1);
    app.draw(&late);
    for _ in 0..3 {
        app.update();
    }
    assert!(app.gate.is_open());
}

#[test]
fn nothing_registered_opens_after_a_grace_period() {
    let mut app = WarmupWorld::new();
    app.update();
    assert!(!app.gate.is_open());
    app.update();
    assert!(app.gate.is_open());
}

#[test]
fn an_item_that_never_draws_cannot_hang_boot() {
    let mut app = WarmupWorld::new();
    let items = app.register(1);
    for _ in 0..TIMEOUT_FRAMES {
        app.update();
    }
    assert!(app.gate.is_open());
    app.update();
    assert!(app.rendered(items[0]).is_none());
}

#[test]
fn timed_out_round_reports_its_cold_items() {
    let mut state = WarmupState::new();
    state.add();
    state.add();
    let mut rendered = vec![0u32, 0];
    let visible = [true, false];
    let mut last = WarmupFrame::Idle;
    for _ in 0..TIMEOUT_FRAMES {
        last = state.frame(true, &mut rendered, &visible);
    }
    assert_eq!(
        last,
        WarmupFrame::Finished { verdict: WarmupVerdict::TimedOut, items: 2, cold: 1 }
    );
    assert_eq!(state.pending(), 0);
    assert_eq!(state.frames_waited(), 0);
}

#[test]
fn warmup_idles_while_the_gate_is_free() {
    let mut state = WarmupState::new();
    assert_eq!(state.add(), 0);
    assert_eq!(state.add(), 1);
    let mut rendered = vec![5u32, 5];
    assert_eq!(state.frame(false, &mut rendered, &[true, true]), WarmupFrame::Idle);
    assert_eq!(rendered, vec![5, 5]);
    assert_eq!(state.frames_waited(), 0);
    assert_eq!(state.pending(), 2);
    assert_eq!(
        state.frame(true, &mut rendered, &[true, true]),
        WarmupFrame::Finished { verdict: WarmupVerdict::Done, items: 2, cold: 0 }
    );
    assert_eq!(state.pending(), 0);
}

#[test]
fn warmup_items_fill_rows_of_eight() {
    assert_eq!(slot_cell(0), (0, 0));
    assert_eq!(slot_cell(7), (7, 0));
    assert_eq!(slot_cell(8), (0, 1));
    assert_eq!(slot_cell(21), (5, 2));
}

#[test]
fn round_opens_on_the_first_frame_every_item_is_warm() {
    // Items first drawn on frames 1, 4 and 2: all warm on frame 4 + 3 - 1 = 6.
    let first = [1u32, 4, 2];
    let mut state = WarmupState::new();
    for _ in 0..first.len() {
        state.add();
    }
    let mut rendered = vec![0u32; first.len()];
    for k in 1..=6u32 {
        let visible: Vec<bool> = first.iter().map(|&f| k >= f).collect();
        let step = state.frame(true, &mut rendered, &visible);
        if k < 6 {
            assert_eq!(step, WarmupFrame::Waiting, "frame {k}");
        } else {
            assert_eq!(step, WarmupFrame::Finished { verdict: WarmupVerdict::Done, items: 3, cold: 0 });
        }
    }
}
