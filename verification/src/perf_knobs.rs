//! `--knobs k=v,...`: debug switches for performance experiments. They turn
//! expensive features off one at a time so their cost shows up in frame timing.
//!
//! Milestone 1 knobs: `shadows=off`, `msaa=1|2|4`, `viewmodel=off`,
//! `scale=<f32>`, `fog=off`, `sky=off`, `vmmsaa=1|2|4` (viewmodel camera only).
//! Milestone 2 knobs: `outline=mod|hull|off`, `far=off`, `halos=off`,
//! `particles=<cap>`, `skyrot=off` and `blobs=off`.
//!
//! `scale` keeps the value's text: reading it as a float is left to the
//! program around the library.
use crate::look::settings::{outline_in_range, outline_spec, range_is_off_word, is_off_word, OutlineBackend};
use crate::text::{
    chars_of, decimal_text, find_char, first_index, is_first, lemma_decimal_text_spells,
    lemma_first_index, lemma_parse_reads_decimal_text, parse_u32_range, parse_u32_spec, range_is,
};
use vstd::prelude::*;
use vstd::string::*;

verus! {

/// What a [`PerfKnobs`] holds, as mathematical values.
pub ghost struct KnobsView {
    pub raw: Seq<char>,
    pub shadows: Option<bool>,
    pub msaa: Option<u32>,
    pub viewmodel: Option<bool>,
    pub scale: Option<Seq<char>>,
    pub fog: Option<bool>,
    pub sky: Option<bool>,
    pub viewmodel_msaa: Option<u32>,
    pub outline: Option<OutlineBackend>,
    pub far: Option<bool>,
    pub halos: Option<bool>,
    pub particles: Option<u32>,
    pub skyrot: Option<bool>,
    pub blobs: Option<bool>,
}

/// Parsed debug knobs; `None` means "not given".
#[derive(Debug, Clone, Default, PartialEq)]
pub struct PerfKnobs {
    pub raw: String,
    pub shadows: Option<bool>,
    pub msaa: Option<u32>,
    pub viewmodel: Option<bool>,
    /// The text of the `scale=` value (a render scale, read as `f32` by the caller).
    pub scale: Option<String>,
    pub fog: Option<bool>,
    pub sky: Option<bool>,
    pub viewmodel_msaa: Option<u32>,
    pub outline: Option<OutlineBackend>,
    pub far: Option<bool>,
    pub halos: Option<bool>,
    /// Particle pool cap (overrides the feedback tuning's particle cap at startup).
    pub particles: Option<u32>,
    pub skyrot: Option<bool>,
    pub blobs: Option<bool>,
}

impl View for PerfKnobs {
    type V = KnobsView;

    open spec fn view(&self) -> KnobsView {
        KnobsView {
            raw: self.raw@,
            shadows: self.shadows,
            msaa: self.msaa,
            viewmodel: self.viewmodel,
            scale: match self.scale {
                Some(s) => Some(s@),
                None => None,
            },
            fog: self.fog,
            sky: self.sky,
            viewmodel_msaa: self.viewmodel_msaa,
            outline: self.outline,
            far: self.far,
            halos: self.halos,
            particles: self.particles,
            skyrot: self.skyrot,
            blobs: self.blobs,
        }
    }
}

/// No knob given, remembering `raw`.
pub open spec fn no_knobs(raw: Seq<char>) -> KnobsView {
    KnobsView {
        raw,
        shadows: None,
        msaa: None,
        viewmodel: None,
        scale: None,
        fog: None,
        sky: None,
        viewmodel_msaa: None,
        outline: None,
        far: None,
        halos: None,
        particles: None,
        skyrot: None,
        blobs: None,
    }
}

/// Applies one `key=value`. Every value but `off`, `0` and `false` means on;
/// numbers read as `str::parse::<u32>`; unknown keys change nothing.
pub open spec fn apply_knob(k: KnobsView, key: Seq<char>, value: Seq<char>) -> KnobsView {
    let on = !is_off_word(value);
    if key == "shadows"@ {
        KnobsView { shadows: Some(on), ..k }
    } else if key == "msaa"@ {
        KnobsView { msaa: parse_u32_spec(value), ..k }
    } else if key == "viewmodel"@ {
        KnobsView { viewmodel: Some(on), ..k }
    } else if key == "scale"@ {
        KnobsView { scale: Some(value), ..k }
    } else if key == "fog"@ {
        KnobsView { fog: Some(on), ..k }
    } else if key == "sky"@ {
        KnobsView { sky: Some(on), ..k }
    } else if key == "vmmsaa"@ {
        KnobsView { viewmodel_msaa: parse_u32_spec(value), ..k }
    } else if key == "outline"@ {
        KnobsView { outline: outline_spec(value), ..k }
    } else if key == "far"@ {
        KnobsView { far: Some(on), ..k }
    } else if key == "halos"@ {
        KnobsView { halos: Some(on), ..k }
    } else if key == "particles"@ {
        KnobsView { particles: parse_u32_spec(value), ..k }
    } else if key == "skyrot"@ {
        KnobsView { skyrot: Some(on), ..k }
    } else if key == "blobs"@ {
        KnobsView { blobs: Some(on), ..k }
    } else {
        k
    }
}

/// A `key=value` item split at its first `=`; a bare key means `key=on`.
pub open spec fn split_item(p: Seq<char>) -> (Seq<char>, Seq<char>) {
    match first_index(p, '=') {
        Some(i) => (p.subrange(0, i), p.subrange(i + 1, p.len() as int)),
        None => (p, "on"@),
    }
}

/// Applies one comma-separated item; empty items are skipped.
pub open spec fn apply_item(k: KnobsView, p: Seq<char>) -> KnobsView {
    if p.len() == 0 {
        k
    } else {
        apply_knob(k, split_item(p).0, split_item(p).1)
    }
}

/// `s` split at every comma (as `str::split(',')`: `n` commas give `n + 1` items).
pub open spec fn items(s: Seq<char>) -> Seq<Seq<char>>
    decreases s.len(),
{
    if s.len() == 0 {
        seq![Seq::empty()]
    } else {
        let p = items(s.drop_last());
        if s.last() == ',' {
            p.push(Seq::empty())
        } else {
            p.update(p.len() - 1, p.last().push(s.last()))
        }
    }
}

/// Applies the items in order.
pub open spec fn apply_items(k: KnobsView, ps: Seq<Seq<char>>) -> KnobsView
    decreases ps.len(),
{
    if ps.len() == 0 {
        k
    } else {
        apply_item(apply_items(k, ps.drop_last()), ps.last())
    }
}

/// The knobs `raw` asks for: every item applied left to right, so a later
/// item for the same key wins.
pub open spec fn knobs_spec(raw: Seq<char>) -> KnobsView {
    apply_items(no_knobs(raw), items(raw))
}

impl PerfKnobs {
    /// No knob given.
    pub fn none(raw: String) -> (r: Self)
        ensures
            r@ == no_knobs(raw@),
    {
        PerfKnobs {
            raw,
            shadows: None,
            msaa: None,
            viewmodel: None,
            scale: None,
            fog: None,
            sky: None,
            viewmodel_msaa: None,
            outline: None,
            far: None,
            halos: None,
            particles: None,
            skyrot: None,
            blobs: None,
        }
    }

    /// The value of the `--knobs` flag, parsed; `None` when the flag (or its
    /// value) is missing.
    pub fn from_args(args: &[String]) -> (r: Option<Self>)
        ensures
            match crate::scenario::flag_value_spec(args@.map_values(|a: String| a@), "--knobs"@) {
                Some(v) => r is Some && r->0@ == knobs_spec(v),
                None => r is None,
            },
    {
        match crate::scenario::flag_value(args, "--knobs") {
            Some(raw) => Some(Self::parse(raw.as_str())),
            None => None,
        }
    }

    /// Parses `k=v,k=v,...`. A bare key means "on"; unknown keys are ignored.
    pub fn parse(raw: &str) -> (r: Self)
        ensures
            r@ == knobs_spec(raw@),
    {
        let v: Vec<char> = chars_of(raw);
        let n: usize = v.len();
        let mut knobs: PerfKnobs = PerfKnobs::none(raw.to_owned());
        let mut start: usize = 0;
        let mut i: usize = 0;
        proof {
            assert(v@.subrange(0, 0) =~= Seq::<char>::empty());
        }
        while i < n
            invariant
                n == v@.len(),
                v@ == raw@,
                start <= i <= n,
                items(v@.subrange(0, i as int)).len() >= 1,
                items(v@.subrange(0, i as int)).last() == v@.subrange(start as int, i as int),
                knobs@ == apply_items(
                    no_knobs(raw@),
                    items(v@.subrange(0, i as int)).drop_last(),
                ),
            decreases n - i,
        {
            let ghost before = items(v@.subrange(0, i as int));
            let ghost next = v@.subrange(0, i as int + 1);
            assert(next.drop_last() =~= v@.subrange(0, i as int));
            assert(next.last() == v@[i as int]);
            if v[i] == ',' {
                knobs = Self::apply_range(knobs, raw, &v, start, i);
                assert(items(next).drop_last() =~= before);
                assert(items(next).last() =~= Seq::<char>::empty());
                start = i + 1;
                assert(v@.subrange(start as int, i as int + 1) =~= Seq::<char>::empty());
            } else {
                assert(items(next).drop_last() =~= before.drop_last());
                assert(v@.subrange(start as int, i as int + 1) =~= v@.subrange(
                    start as int,
                    i as int,
                ).push(v@[i as int]));
            }
            i = i + 1;
        }
        assert(v@.subrange(0, n as int) =~= v@);
        let ghost all = items(v@);
        knobs = Self::apply_range(knobs, raw, &v, start, n);
        assert(all =~= all.drop_last().push(all.last()));
        knobs
    }

    /// Applies the item `v[lo..hi]` (where `v` holds the characters of `raw`).
    fn apply_range(knobs: Self, raw: &str, v: &Vec<char>, lo: usize, hi: usize) -> (r: Self)
        requires
            v@ == raw@,
            lo <= hi <= v@.len(),
        ensures
            r@ == apply_item(knobs@, v@.subrange(lo as int, hi as int)),
    {
        if lo == hi {
            return knobs;
        }
        let ghost p = v@.subrange(lo as int, hi as int);
        match find_char(v, lo, hi, '=') {
            Some(eq) => {
                let value: String = raw.substring_char(eq + 1, hi).to_owned();
                assert(p.subrange(0, eq - lo) =~= v@.subrange(lo as int, eq as int));
                assert(p.subrange(eq - lo + 1, p.len() as int) =~= v@.subrange(
                    eq + 1,
                    hi as int,
                ));
                assert(first_index(p, '=') == Some(eq - lo));
                assert(split_item(p).0 == v@.subrange(lo as int, eq as int));
                assert(split_item(p).1 == value@);
                Self::apply_pair(knobs, v, lo, eq, value)
            },
            None => {
                let value: String = "on".to_owned();
                assert(first_index(p, '=') is None);
                assert(split_item(p).0 == v@.subrange(lo as int, hi as int));
                assert(split_item(p).1 == value@);
                Self::apply_pair(knobs, v, lo, hi, value)
            },
        }
    }

    /// Applies `key=value` where the key is `v[lo..hi]`.
    fn apply_pair(knobs: Self, v: &Vec<char>, lo: usize, hi: usize, value: String) -> (r: Self)
        requires
            lo <= hi <= v@.len(),
        ensures
            r@ == apply_knob(knobs@, v@.subrange(lo as int, hi as int), value@),
    {
        let w: Vec<char> = chars_of(value.as_str());
        let m: usize = w.len();
        assert(w@.subrange(0, m as int) =~= w@);
        let on: bool = !range_is_off_word(&w, 0, m);
        let mut k = knobs;
        if range_is(v, lo, hi, "shadows") {
            k.shadows = Some(on);
        } else if range_is(v, lo, hi, "msaa") {
            k.msaa = parse_u32_range(&w, 0, m);
        } else if range_is(v, lo, hi, "viewmodel") {
            k.viewmodel = Some(on);
        } else if range_is(v, lo, hi, "scale") {
            k.scale = Some(value);
        } else if range_is(v, lo, hi, "fog") {
            k.fog = Some(on);
        } else if range_is(v, lo, hi, "sky") {
            k.sky = Some(on);
        } else if range_is(v, lo, hi, "vmmsaa") {
            k.viewmodel_msaa = parse_u32_range(&w, 0, m);
        } else if range_is(v, lo, hi, "outline") {
            k.outline = outline_in_range(&w, 0, m);
        } else if range_is(v, lo, hi, "far") {
            k.far = Some(on);
        } else if range_is(v, lo, hi, "halos") {
            k.halos = Some(on);
        } else if range_is(v, lo, hi, "particles") {
            k.particles = parse_u32_range(&w, 0, m);
        } else if range_is(v, lo, hi, "skyrot") {
            k.skyrot = Some(on);
        } else if range_is(v, lo, hi, "blobs") {
            k.blobs = Some(on);
        }
        k
    }
}

proof fn lemma_items_keep_raw(k: KnobsView, ps: Seq<Seq<char>>)
    ensures
        apply_items(k, ps).raw == k.raw,
    decreases ps.len(),
{
    if ps.len() > 0 {
        lemma_items_keep_raw(k, ps.drop_last());
    }
}

/// Parsing keeps the knobs' text as given.
pub proof fn lemma_knobs_keep_their_text(raw: Seq<char>)
    ensures
        knobs_spec(raw).raw == raw,
{
    lemma_items_keep_raw(no_knobs(raw), items(raw));
}

proof fn lemma_items_of_one(s: Seq<char>)
    requires
        forall|i: int| 0 <= i < s.len() ==> s[i] != ',',
    ensures
        items(s) == seq![s],
    decreases s.len(),
{
    if s.len() > 0 {
        lemma_items_of_one(s.drop_last());
        assert(s[s.len() - 1] != ',');
        assert(s.drop_last().push(s.last()) =~= s);
        assert(items(s) =~= seq![s]);
    } else {
        assert(s =~= Seq::<char>::empty());
    }
}

/// `key=` followed by `n` in decimal, as the only item of the knobs text,
/// applies `key` with the value `n` as text.
proof fn lemma_one_numeric_item(key: Seq<char>, n: u32)
    requires
        key.len() > 0,
        forall|i: int| 0 <= i < key.len() ==> key[i] != ',' && key[i] != '=',
    ensures
        ({
            let raw = key + seq!['='] + decimal_text(n as nat);
            knobs_spec(raw) == apply_knob(no_knobs(raw), key, decimal_text(n as nat))
        }),
{
    let text = decimal_text(n as nat);
    let raw = key + seq!['='] + text;
    lemma_decimal_text_spells(n as nat);
    assert forall|i: int| 0 <= i < raw.len() implies raw[i] != ',' by {
        if i >= key.len() + 1 {
            assert(raw[i] == text[i - key.len() - 1]);
        }
    }
    lemma_items_of_one(raw);
    assert(seq![raw].drop_last() =~= Seq::<Seq<char>>::empty());
    assert(raw[key.len() as int] == '=');
    assert(is_first(raw, '=', key.len() as int));
    lemma_first_index(raw, '=', key.len() as int);
    assert(raw.subrange(0, key.len() as int) =~= key);
    assert(raw.subrange(key.len() as int + 1, raw.len() as int) =~= text);
    assert(split_item(raw) == (key, text));
    assert(apply_items(no_knobs(raw), seq![raw].drop_last()) == no_knobs(raw));
    assert(knobs_spec(raw) == apply_item(no_knobs(raw), raw));
}

/// A numeric knob takes the number written after it: `msaa=n`,
/// `vmmsaa=n` and `particles=n` set the MSAA samples, the viewmodel's MSAA
/// samples and the particle cap to `n`, for every `u32` `n`.
pub proof fn lemma_numeric_knobs_take_the_number(n: u32)
    ensures
        knobs_spec("msaa="@ + decimal_text(n as nat)).msaa == Some(n),
        knobs_spec("vmmsaa="@ + decimal_text(n as nat)).viewmodel_msaa == Some(n),
        knobs_spec("particles="@ + decimal_text(n as nat)).particles == Some(n),
{
    reveal_strlit("shadows");
    reveal_strlit("msaa");
    reveal_strlit("viewmodel");
    reveal_strlit("scale");
    reveal_strlit("fog");
    reveal_strlit("sky");
    reveal_strlit("vmmsaa");
    reveal_strlit("outline");
    reveal_strlit("far");
    reveal_strlit("halos");
    reveal_strlit("particles");
    reveal_strlit("msaa=");
    reveal_strlit("vmmsaa=");
    reveal_strlit("particles=");
    lemma_parse_reads_decimal_text(n);
    let text = decimal_text(n as nat);
    assert("msaa="@ =~= "msaa"@ + seq!['=']);
    assert("vmmsaa="@ =~= "vmmsaa"@ + seq!['=']);
    assert("particles="@ =~= "particles"@ + seq!['=']);
    lemma_one_numeric_item("msaa"@, n);
    lemma_one_numeric_item("vmmsaa"@, n);
    lemma_one_numeric_item("particles"@, n);
    assert("particles"@[0] != "viewmodel"@[0]);
}

} // verus!
