//! Quality presets and perf-knob overrides, resolved into one [`LookSettings`]
//! that every look system reads, plus the MSAA setting shared by both 3D cameras.
use crate::perf_knobs::{KnobsView, PerfKnobs};
use crate::render::QualityPreset;
use crate::text::{chars_of, range_is};
use vstd::prelude::*;

verus! {

/// How ink outlines are drawn (`--knobs outline=mod|hull|off`).
#[derive(Debug, Clone, Copy, PartialEq, Eq, Structural, Hash)]
pub enum OutlineBackend {
    /// Vertex extrusion drawn in its own passes after the main pass; only
    /// available when the game was launched with `--knobs outline=mod`.
    Mod,
    /// An inverted hull drawn inside the main pass. The default.
    Hull,
    /// No outlines.
    Off,
}

impl Default for OutlineBackend {
    fn default() -> (r: Self)
        ensures
            r == OutlineBackend::Hull,
    {
        OutlineBackend::Hull
    }
}

/// A value that switches something off: `off`, `0` or `false`.
pub open spec fn is_off_word(v: Seq<char>) -> bool {
    v == "off"@ || v == "0"@ || v == "false"@
}

/// The outline backend a knob value names, if any.
pub open spec fn outline_spec(v: Seq<char>) -> Option<OutlineBackend> {
    if v == "mod"@ {
        Some(OutlineBackend::Mod)
    } else if v == "hull"@ || v == "on"@ {
        Some(OutlineBackend::Hull)
    } else if is_off_word(v) {
        Some(OutlineBackend::Off)
    } else {
        None
    }
}

/// Whether `v[lo..hi]` is `off`, `0` or `false`.
pub fn range_is_off_word(v: &Vec<char>, lo: usize, hi: usize) -> (r: bool)
    requires
        lo <= hi <= v@.len(),
    ensures
        r == is_off_word(v@.subrange(lo as int, hi as int)),
{
    range_is(v, lo, hi, "off") || range_is(v, lo, hi, "0") || range_is(v, lo, hi, "false")
}

/// The outline backend spelled by `v[lo..hi]`.
pub fn outline_in_range(v: &Vec<char>, lo: usize, hi: usize) -> (r: Option<OutlineBackend>)
    requires
        lo <= hi <= v@.len(),
    ensures
        r == outline_spec(v@.subrange(lo as int, hi as int)),
{
    if range_is(v, lo, hi, "mod") {
        Some(OutlineBackend::Mod)
    } else if range_is(v, lo, hi, "hull") || range_is(v, lo, hi, "on") {
        Some(OutlineBackend::Hull)
    } else if range_is_off_word(v, lo, hi) {
        Some(OutlineBackend::Off)
    } else {
        None
    }
}

impl OutlineBackend {
    /// `mod`, `hull` (or `on`), `off` (or `0`, `false`); anything else is `None`.
    pub fn parse(value: &str) -> (r: Option<Self>)
        ensures
            r == outline_spec(value@),
    {
        let v: Vec<char> = chars_of(value);
        assert(v@.subrange(0, v@.len() as int) =~= v@);
        outline_in_range(&v, 0, v.len())
    }
}


/// What a quality preset changes in the pipeline.
#[derive(Debug, Clone, Copy, PartialEq, Eq, Structural)]
pub struct PresetLook {
    pub outline: OutlineBackend,
    /// MSAA sample count for both 3D cameras (1 = off).
    pub msaa_samples: u32,
    /// Render-pixel budget in percent: scales the configured cap on 3D render
    /// pixels (Battery keeps the configured cap, 100).
    pub pixel_budget_percent: u32,
    /// Extra grass tufts on the arena floor.
    pub dense_grass: bool,
}

/// The look each preset asks for.
pub open spec fn preset_look_spec(preset: QualityPreset) -> PresetLook {
    match preset {
        QualityPreset::Battery => PresetLook {
            outline: OutlineBackend::Hull,
            msaa_samples: 4,
            pixel_budget_percent: 100,
            dense_grass: false,
        },
        QualityPreset::PluggedIn => PresetLook {
            outline: OutlineBackend::Hull,
            msaa_samples: 4,
            pixel_budget_percent: 150,
            dense_grass: true,
        },
    }
}

pub fn preset_look(preset: QualityPreset) -> (r: PresetLook)
    ensures
        r == preset_look_spec(preset),
{
    match preset {
        QualityPreset::Battery => PresetLook {
            outline: OutlineBackend::Hull,
            msaa_samples: 4,
            pixel_budget_percent: 100,
            dense_grass: false,
        },
        QualityPreset::PluggedIn => PresetLook {
            outline: OutlineBackend::Hull,
            msaa_samples: 4,
            pixel_budget_percent: 150,
            dense_grass: true,
        },
    }
}

/// Multisample anti-aliasing setting of a 3D camera.
#[derive(Debug, Clone, Copy, PartialEq, Eq, Structural, Hash)]
pub enum Msaa {
    Off,
    Sample2,
    Sample4,
    Sample8,
}

/// MSAA for a sample count: 0 or 1 is off, 2 and 8 as asked, anything else 4x.
pub open spec fn msaa_spec(samples: u32) -> Msaa {
    if samples == 0 || samples == 1 {
        Msaa::Off
    } else if samples == 2 {
        Msaa::Sample2
    } else if samples == 8 {
        Msaa::Sample8
    } else {
        Msaa::Sample4
    }
}

/// `Msaa` for a sample count (anything unexpected means 4×).
pub fn msaa_for(samples: u32) -> (r: Msaa)
    ensures
        r == msaa_spec(samples),
{
    match samples {
        0 | 1 => Msaa::Off,
        2 => Msaa::Sample2,
        8 => Msaa::Sample8,
        _ => Msaa::Sample4,
    }
}

/// The effective look this frame: the preset, overridden by perf knobs.
#[derive(Debug, Clone, Copy, PartialEq, Eq, Structural)]
pub struct LookSettings {
    pub outline: OutlineBackend,
    pub msaa: Msaa,
    /// Normally equal to `msaa`; only the `vmmsaa` knob splits them.
    pub viewmodel_msaa: Msaa,
    pub far: bool,
    pub halos: bool,
    pub blobs: bool,
    /// Sky rotation on/off (read by the sky slice).
    pub sky_rotation: bool,
    pub dense_grass: bool,
}

/// A knob's switch: on unless the knob says off.
pub open spec fn switch(k: Option<KnobsView>, f: spec_fn(KnobsView) -> Option<bool>) -> bool {
    match k {
        Some(k) => match f(k) {
            Some(b) => b,
            None => true,
        },
        None => true,
    }
}

/// Preset + knobs → settings. Without `bevy_mod_outline` running
/// (`mod_available` false) a `Mod` request falls back to the hull.
pub open spec fn resolve_look_spec(
    preset: QualityPreset,
    knobs: Option<KnobsView>,
    mod_available: bool,
) -> LookSettings {
    let look = preset_look_spec(preset);
    let asked = match knobs {
        Some(k) => match k.outline {
            Some(o) => o,
            None => look.outline,
        },
        None => look.outline,
    };
    let outline = if asked == OutlineBackend::Mod && !mod_available {
        OutlineBackend::Hull
    } else {
        asked
    };
    let samples = match knobs {
        Some(k) => match k.msaa {
            Some(m) => m,
            None => look.msaa_samples,
        },
        None => look.msaa_samples,
    };
    let msaa = msaa_spec(samples);
    let viewmodel_msaa = match knobs {
        Some(k) => match k.viewmodel_msaa {
            Some(m) => msaa_spec(m),
            None => msaa,
        },
        None => msaa,
    };
    LookSettings {
        outline,
        msaa,
        viewmodel_msaa,
        far: switch(knobs, |k: KnobsView| k.far),
        halos: switch(knobs, |k: KnobsView| k.halos),
        blobs: switch(knobs, |k: KnobsView| k.blobs),
        sky_rotation: switch(knobs, |k: KnobsView| k.skyrot),
        dense_grass: look.dense_grass,
    }
}

fn knob_or_on(v: Option<bool>) -> (r: bool)
    ensures
        r == match v {
            Some(b) => b,
            None => true,
        },
{
    match v {
        Some(b) => b,
        None => true,
    }
}

/// Preset + knobs → settings. `mod_available` says whether `bevy_mod_outline`
/// is running; without it a `Mod` request falls back to the hull.
pub fn resolve_look(preset: QualityPreset, knobs: Option<&PerfKnobs>, mod_available: bool) -> (r:
    LookSettings)
    ensures
        r == resolve_look_spec(
            preset,
            match knobs {
                Some(k) => Some(k@),
                None => None,
            },
            mod_available,
        ),
{
    let look = preset_look(preset);
    let asked = match knobs {
        Some(k) => match k.outline {
            Some(o) => o,
            None => look.outline,
        },
        None => look.outline,
    };
    let outline = if asked == OutlineBackend::Mod && !mod_available {
        OutlineBackend::Hull
    } else {
        asked
    };
    let samples: u32 = match knobs {
        Some(k) => match k.msaa {
            Some(m) => m,
            None => look.msaa_samples,
        },
        None => look.msaa_samples,
    };
    let msaa = msaa_for(samples);
    let viewmodel_msaa = match knobs {
        Some(k) => match k.viewmodel_msaa {
            Some(m) => msaa_for(m),
            None => msaa,
        },
        None => msaa,
    };
    let (far, halos, blobs, sky_rotation) = match knobs {
        Some(k) => (
            knob_or_on(k.far),
            knob_or_on(k.halos),
            knob_or_on(k.blobs),
            knob_or_on(k.skyrot),
        ),
        None => (true, true, true, true),
    };
    LookSettings {
        outline,
        msaa,
        viewmodel_msaa,
        far,
        halos,
        blobs,
        sky_rotation,
        dense_grass: look.dense_grass,
    }
}

impl Default for LookSettings {
    fn default() -> (r: Self)
        ensures
            r == resolve_look_spec(QualityPreset::Battery, None, false),
    {
        resolve_look(QualityPreset::Battery, None, false)
    }
}

/// `bevy_mod_outline` adds passes (and an MSAA write-back blit on every MSAA
/// camera) as soon as its plugin exists, so it is only added when it is the
/// backend being measured: `--knobs outline=mod`.
pub fn mod_outline_requested(knobs: Option<&PerfKnobs>) -> (r: bool)
    ensures
        r == (knobs matches Some(k) && k.outline == Some(OutlineBackend::Mod)),
{
    match knobs {
        Some(k) => match k.outline {
            Some(OutlineBackend::Mod) => true,
            _ => false,
        },
        None => false,
    }
}

/// Our inverted hulls show only while they are the outline backend.
pub fn hull_visible(backend: OutlineBackend) -> (r: bool)
    ensures
        r == (backend == OutlineBackend::Hull),
{
    match backend {
        OutlineBackend::Hull => true,
        _ => false,
    }
}

/// Both presets draw the same outlines with the same anti-aliasing; plugged in
/// raises the pixel budget by half and adds the dense grass.
pub proof fn lemma_presets_trade_quality_for_headroom()
    ensures
        preset_look_spec(QualityPreset::Battery).outline == preset_look_spec(
            QualityPreset::PluggedIn,
        ).outline,
        preset_look_spec(QualityPreset::Battery).msaa_samples == preset_look_spec(
            QualityPreset::PluggedIn,
        ).msaa_samples,
        preset_look_spec(QualityPreset::Battery).pixel_budget_percent * 3 == preset_look_spec(
            QualityPreset::PluggedIn,
        ).pixel_budget_percent * 2,
        !preset_look_spec(QualityPreset::Battery).dense_grass,
        preset_look_spec(QualityPreset::PluggedIn).dense_grass,
{
}

/// Knobs override the preset: a given outline (when it can be drawn), MSAA
/// count or switch wins over what the preset says; without knobs the preset
/// holds and every switch is on.
pub proof fn lemma_knobs_override_the_preset(
    preset: QualityPreset,
    knobs: Option<KnobsView>,
    mod_available: bool,
)
    ensures
        ({
            let r = resolve_look_spec(preset, knobs, mod_available);
            let look = preset_look_spec(preset);
            &&& (knobs is Some && knobs->0.outline is Some && (knobs->0.outline->0
                != OutlineBackend::Mod || mod_available)) ==> r.outline == knobs->0.outline->0
            &&& (knobs is Some && knobs->0.msaa is Some) ==> r.msaa == msaa_spec(
                knobs->0.msaa->0,
            )
            &&& (knobs is Some && knobs->0.far is Some) ==> r.far == knobs->0.far->0
            &&& (knobs is Some && knobs->0.halos is Some) ==> r.halos == knobs->0.halos->0
            &&& (knobs is Some && knobs->0.blobs is Some) ==> r.blobs == knobs->0.blobs->0
            &&& (knobs is Some && knobs->0.skyrot is Some) ==> r.sky_rotation
                == knobs->0.skyrot->0
            &&& knobs is None ==> {
                &&& r.outline == look.outline
                &&& r.msaa == msaa_spec(look.msaa_samples)
                &&& r.far && r.halos && r.blobs && r.sky_rotation
            }
            &&& r.dense_grass == look.dense_grass
        }),
{
}

/// `bevy_mod_outline`'s outlines are drawn only when its plugin runs: without
/// it, the look never asks for them.
pub proof fn lemma_mod_outlines_need_their_plugin(
    preset: QualityPreset,
    knobs: Option<KnobsView>,
)
    ensures
        resolve_look_spec(preset, knobs, false).outline != OutlineBackend::Mod,
{
}

/// The viewmodel camera uses the main cameras' MSAA unless the `vmmsaa` knob
/// splits them.
pub proof fn lemma_viewmodel_msaa_follows_the_main_camera(
    preset: QualityPreset,
    knobs: Option<KnobsView>,
    mod_available: bool,
)
    ensures
        (knobs is Some ==> knobs->0.viewmodel_msaa is None) ==> resolve_look_spec(
            preset,
            knobs,
            mod_available,
        ).viewmodel_msaa == resolve_look_spec(preset, knobs, mod_available).msaa,
        (knobs is Some && knobs->0.viewmodel_msaa is Some) ==> resolve_look_spec(
            preset,
            knobs,
            mod_available,
        ).viewmodel_msaa == msaa_spec(knobs->0.viewmodel_msaa->0),
{
}

} // verus!
