use pieced::look::settings::OutlineBackend;
use pieced::perf_knobs::PerfKnobs;

/// The `scale=` knob's value as the render scale it names.
fn scale_of(k: &PerfKnobs) -> Option<f32> {
    k.scale.as_deref().and_then(|s| s.parse::<f32>().ok())
}

#[test]
fn parses_milestone_2_knobs() {
    let raw = "outline=mod,far=off,halos=off,particles=120,skyrot=off,blobs=off";
    let k = PerfKnobs::parse(raw);
    assert_eq!(k.outline, Some(OutlineBackend::Mod));
    assert_eq!(k.far, Some(false));
    assert_eq!(k.halos, Some(false));
    assert_eq!(k.particles, Some(120));
    assert_eq!(k.skyrot, Some(false));
    assert_eq!(k.blobs, Some(false));
    assert_eq!(k.raw, raw);

    assert_eq!(
        PerfKnobs::parse("outline=hull").outline,
        Some(OutlineBackend::Hull)
    );
    assert_eq!(
        PerfKnobs::parse("outline=off").outline,
        Some(OutlineBackend::Off)
    );
    // A bare key means on; bad values are ignored.
    assert_eq!(PerfKnobs::parse("far").far, Some(true));
    assert_eq!(PerfKnobs::parse("outline=wobbly").outline, None);
    assert_eq!(PerfKnobs::parse("particles=lots").particles, None);
}

#[test]
fn keeps_milestone_1_knobs() {
    let k = PerfKnobs::parse("shadows=off,msaa=2,vmmsaa=1,viewmodel=off,scale=0.8,fog=off,sky=off");
    assert_eq!(k.shadows, Some(false));
    assert_eq!(k.msaa, Some(2));
    assert_eq!(k.viewmodel_msaa, Some(1));
    assert_eq!(k.viewmodel, Some(false));
    assert_eq!(scale_of(&k), Some(0.8));
    assert_eq!(k.fog, Some(false));
    assert_eq!(k.sky, Some(false));
    assert_eq!(k.outline, None);
}

#[test]
fn knobs_come_from_the_command_line() {
    let args: Vec<String> = ["pieced", "--scenario", "perf", "--knobs", "blobs=off"]
        .iter()
        .map(|s| s.to_string())
        .collect();
    assert_eq!(PerfKnobs::from_args(&args).unwrap().blobs, Some(false));
    assert!(PerfKnobs::from_args(&args[..3]).is_none());
}

#[test]
fn off_words_and_numbers() {
    let k = PerfKnobs::parse("shadows=0,fog=false,sky=yes,far=on,msaa=+4,particles=4294967295");
    assert_eq!(k.shadows, Some(false));
    assert_eq!(k.fog, Some(false));
    assert_eq!(k.sky, Some(true));
    assert_eq!(k.far, Some(true));
    assert_eq!(k.msaa, Some(4));
    assert_eq!(k.particles, Some(u32::MAX));
    assert_eq!(PerfKnobs::parse("particles=4294967296").particles, None);
    assert_eq!(PerfKnobs::parse("msaa=").msaa, None);
    assert_eq!(PerfKnobs::parse("msaa=-1").msaa, None);
}

#[test]
fn empty_and_unknown_items_change_nothing() {
    let k = PerfKnobs::parse(",,wobble=3,,");
    assert_eq!(k, PerfKnobs::none(",,wobble=3,,".to_string()));
    let e = PerfKnobs::parse("");
    assert_eq!(e.raw, "");
    assert_eq!(e.far, None);
    assert_eq!(e.scale, None);
}

#[test]
fn only_the_first_equals_splits_a_knob() {
    let k = PerfKnobs::parse("scale=1=2,halos=off=on");
    assert_eq!(k.scale.as_deref(), Some("1=2"));
    assert_eq!(k.halos, Some(true));
}

#[test]
fn knobs_flag_needs_a_value() {
    let args: Vec<String> = ["pieced", "--knobs"].iter().map(|s| s.to_string()).collect();
    assert!(PerfKnobs::from_args(&args).is_none());
    let args: Vec<String> = ["pieced", "--knobs", "far=off", "--knobs", "far=on"]
        .iter()
        .map(|s| s.to_string())
        .collect();
    assert_eq!(PerfKnobs::from_args(&args).unwrap().far, Some(false));
}
