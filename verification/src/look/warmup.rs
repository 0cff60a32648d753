//! Pipeline warm-up. During Boot every module draws one of each render
//! pipeline variant it will need behind an opaque loading overlay, and play
//! starts only once every item has been drawn for [`WARMUP_FRAMES`] frames.
//!
//! Adding an item holds the Boot gate key [`WARMUP_GATE`] immediately. The Boot gate
//! is released when every item has been rendered [`WARMUP_FRAMES`] times (or
//! after [`TIMEOUT_FRAMES`]), and the items are despawned.
use vstd::prelude::*;

verus! {

/// The Boot gate key held while warm-up items are pending.
pub const WARMUP_GATE: &'static str = "warmup";
/// Frames each item must be rendered before the Boot gate opens.
pub const WARMUP_FRAMES: u32 = 3;
/// With nothing registered, the Boot gate still waits this many frames for late
/// Startup registrations.
pub const MIN_WAIT_FRAMES: u32 = 2;
/// Never hold Boot longer than this (an item that can't be drawn).
pub const TIMEOUT_FRAMES: u32 = 240;

#[derive(Debug, Clone, Copy, PartialEq, Eq, Structural)]
pub enum WarmupVerdict {
    Wait,
    Done,
    TimedOut,
}

/// Items sit in rows of this many in front of the main camera.
pub const WARMUP_COLUMNS: u32 = 8;

/// The (column, row) of an item's slot in the placement grid in front of the
/// main camera.
pub fn slot_cell(slot: u32) -> (r: (u32, u32))
    ensures
        r.0 == slot % WARMUP_COLUMNS,
        r.1 == slot / WARMUP_COLUMNS,
        r.0 < WARMUP_COLUMNS,
        r.1 * WARMUP_COLUMNS + r.0 == slot,
{
    (slot % WARMUP_COLUMNS, slot / WARMUP_COLUMNS)
}

/// The Boot gate decision after `waited` frames, given how many items are
/// registered (`expected`) and each spawned item's rendered-frame count.
pub open spec fn verdict_spec(waited: u32, expected: usize, rendered: Seq<u32>) -> WarmupVerdict {
    if waited >= TIMEOUT_FRAMES {
        WarmupVerdict::TimedOut
    } else if rendered.len() < expected {
        WarmupVerdict::Wait
    } else if rendered.len() == 0 {
        if waited >= MIN_WAIT_FRAMES {
            WarmupVerdict::Done
        } else {
            WarmupVerdict::Wait
        }
    } else if forall|i: int| 0 <= i < rendered.len() ==> rendered[i] >= WARMUP_FRAMES {
        WarmupVerdict::Done
    } else {
        WarmupVerdict::Wait
    }
}

/// The Boot gate decision after `waited` frames, given how many items are
/// registered (`expected`) and each spawned item's rendered-frame count.
pub fn warmup_verdict(waited: u32, expected: usize, rendered: &[u32]) -> (r: WarmupVerdict)
    ensures
        r == verdict_spec(waited, expected, rendered@),
{
    if waited >= TIMEOUT_FRAMES {
        WarmupVerdict::TimedOut
    } else if rendered.len() < expected {
        WarmupVerdict::Wait
    } else if rendered.len() == 0 {
        if waited >= MIN_WAIT_FRAMES {
            WarmupVerdict::Done
        } else {
            WarmupVerdict::Wait
        }
    } else {
        let mut i: usize = 0;
        while i < rendered.len()
            invariant
                waited < TIMEOUT_FRAMES,
                rendered@.len() >= expected,
                rendered@.len() > 0,
                i <= rendered@.len(),
                forall|j: int| 0 <= j < i ==> rendered@[j] >= WARMUP_FRAMES,
            decreases rendered@.len() - i,
        {
            if rendered[i] < WARMUP_FRAMES {
                assert(!(rendered@[i as int] >= WARMUP_FRAMES));
                assert(!(forall|j: int| 0 <= j < rendered@.len() ==> rendered@[j] >= WARMUP_FRAMES));
                return WarmupVerdict::Wait;
            }
            i = i + 1;
        }
        WarmupVerdict::Done
    }
}

/// Number of items drawn fewer than [`WARMUP_FRAMES`] times.
pub open spec fn cold_count(rendered: Seq<u32>) -> nat
    decreases rendered.len(),
{
    if rendered.len() == 0 {
        0
    } else {
        cold_count(rendered.drop_last()) + if rendered.last() < WARMUP_FRAMES {
            1nat
        } else {
            0nat
        }
    }
}

/// What one warm-up frame decided.
#[derive(Debug, Clone, Copy, PartialEq, Eq, Structural)]
pub enum WarmupFrame {
    /// The Boot gate is not held by the warm-up: nothing to do.
    Idle,
    /// Items are still pending.
    Waiting,
    /// The round is over: despawn every item and release the Boot gate.
    Finished {
        verdict: WarmupVerdict,
        /// Items drawn in this round.
        items: usize,
        /// Items that never drew [`WARMUP_FRAMES`] times (nonzero only on a timeout).
        cold: usize,
    },
}

/// Bookkeeping of the warm-up round.
#[derive(Debug)]
pub struct WarmupState {
    /// Frames waited in the current round.
    waited: u32,
    /// Items registered and not yet finished (some may not be spawned yet).
    expected: u32,
    next_slot: u32,
}

impl WarmupState {
    #[verifier::type_invariant]
    spec fn inv(self) -> bool {
        self.waited < TIMEOUT_FRAMES
    }

    pub closed spec fn waited(self) -> u32 {
        self.waited
    }

    pub closed spec fn expected(self) -> u32 {
        self.expected
    }

    pub closed spec fn next_slot(self) -> u32 {
        self.next_slot
    }

    /// A fresh round: nothing waited, registered or placed.
    pub fn new() -> (r: Self)
        ensures
            r.waited() == 0,
            r.expected() == 0,
            r.next_slot() == 0,
    {
        WarmupState { waited: 0, expected: 0, next_slot: 0 }
    }

    /// Frames waited so far in this round; always below [`TIMEOUT_FRAMES`].
    pub fn frames_waited(&self) -> (r: u32)
        ensures
            r == self.waited(),
            r < TIMEOUT_FRAMES,
    {
        proof {
            use_type_invariant(self);
        }
        self.waited
    }

    /// Items still expected to finish.
    pub fn pending(&self) -> (r: u32)
        ensures
            r == self.expected(),
    {
        self.expected
    }

    /// Registers one item (the caller holds [`WARMUP_GATE`] and spawns it).
    /// Returns the item's slot in the placement grid.
    pub fn add(&mut self) -> (slot: u32)
        requires
            old(self).expected() < u32::MAX,
            old(self).next_slot() < u32::MAX,
        ensures
            slot == old(self).next_slot(),
            final(self).next_slot() == old(self).next_slot() + 1,
            final(self).expected() == old(self).expected() + 1,
            final(self).waited() == old(self).waited(),
    {
        proof {
            use_type_invariant(&*self);
        }
        self.expected = self.expected + 1;
        let slot: u32 = self.next_slot;
        self.next_slot = self.next_slot + 1;
        slot
    }

    /// One frame: counts rendered frames (an item visible last frame was drawn
    /// last frame) and decides whether the round is over. `gate_held` says
    /// whether [`WARMUP_GATE`] is held; `rendered[i]` is item `i`'s count,
    /// `visible[i]` whether it was drawn.
    pub fn frame(&mut self, gate_held: bool, rendered: &mut Vec<u32>, visible: &[bool]) -> (r:
        WarmupFrame)
        requires
            old(rendered)@.len() == visible@.len(),
            forall|i: int| 0 <= i < old(rendered)@.len() ==> old(rendered)@[i] < u32::MAX,
        ensures
            final(rendered)@.len() == old(rendered)@.len(),
            !gate_held ==> {
                &&& r == WarmupFrame::Idle
                &&& final(rendered)@ == old(rendered)@
                &&& final(self).waited() == 0
                &&& final(self).expected() == old(self).expected()
                &&& final(self).next_slot() == old(self).next_slot()
            },
            gate_held ==> {
                let waited = (old(self).waited() + 1) as u32;
                let counts = final(rendered)@;
                let verdict = verdict_spec(waited, old(self).expected() as usize, counts);
                &&& forall|i: int|
                    0 <= i < counts.len() ==> #[trigger] counts[i] == old(rendered)@[i] + (
                    if visible@[i] {
                        1int
                    } else {
                        0int
                    })
                &&& verdict == WarmupVerdict::Wait ==> {
                    &&& r == WarmupFrame::Waiting
                    &&& final(self).waited() == waited
                    &&& final(self).expected() == old(self).expected()
                    &&& final(self).next_slot() == old(self).next_slot()
                }
                &&& verdict != WarmupVerdict::Wait ==> {
                    &&& r == (WarmupFrame::Finished {
                        verdict,
                        items: counts.len() as usize,
                        cold: cold_count(counts) as usize,
                    })
                    &&& final(self).waited() == 0
                    &&& final(self).next_slot() == 0
                    &&& final(self).expected() == if verdict == WarmupVerdict::TimedOut {
                        0
                    } else {
                        old(self).expected().saturating_sub(counts.len() as u32)
                    }
                }
            },
    {
        proof {
            use_type_invariant(&*self);
        }
        if !gate_held {
            self.waited = 0;
            return WarmupFrame::Idle;
        }
        let waited: u32 = self.waited + 1;
        let n: usize = rendered.len();
        let mut i: usize = 0;
        while i < n
            invariant
                n == rendered@.len(),
                n == visible@.len(),
                n == old(rendered)@.len(),
                i <= n,
                forall|j: int| 0 <= j < n ==> old(rendered)@[j] < u32::MAX,
                forall|j: int|
                    0 <= j < i ==> #[trigger] rendered@[j] == old(rendered)@[j] + (if visible@[j] {
                        1int
                    } else {
                        0int
                    }),
                forall|j: int| i <= j < n ==> #[trigger] rendered@[j] == old(rendered)@[j],
            decreases n - i,
        {
            if visible[i] {
                let c: u32 = rendered[i];
                rendered.set(i, c + 1);
            }
            i = i + 1;
        }
        let verdict = warmup_verdict(waited, self.expected as usize, rendered.as_slice());
        if verdict == WarmupVerdict::Wait {
            self.waited = waited;
            return WarmupFrame::Waiting;
        }
        let cold: usize = count_cold(rendered);
        let drawn: u32 = n as u32;
        self.expected = self.expected.saturating_sub(drawn);
        if verdict == WarmupVerdict::TimedOut {
            self.expected = 0;
        }
        self.waited = 0;
        self.next_slot = 0;
        WarmupFrame::Finished { verdict, items: n, cold }
    }
}

/// Counts the items drawn fewer than [`WARMUP_FRAMES`] times.
fn count_cold(rendered: &Vec<u32>) -> (r: usize)
    ensures
        r == cold_count(rendered@),
{
    let mut cold: usize = 0;
    let mut i: usize = 0;
    while i < rendered.len()
        invariant
            i <= rendered@.len(),
            cold == cold_count(rendered@.subrange(0, i as int)),
            cold <= i,
        decreases rendered@.len() - i,
    {
        let ghost next = rendered@.subrange(0, i as int + 1);
        assert(next.drop_last() =~= rendered@.subrange(0, i as int));
        if rendered[i] < WARMUP_FRAMES {
            cold = cold + 1;
        }
        i = i + 1;
    }
    assert(rendered@.subrange(0, i as int) =~= rendered@);
    cold
}

impl Default for WarmupState {
    fn default() -> (r: Self)
        ensures
            r.waited() == 0,
            r.expected() == 0,
            r.next_slot() == 0,
    {
        WarmupState::new()
    }
}

/// The Boot gate opens only when the warm-up is really over: every registered
/// item is spawned and has been drawn [`WARMUP_FRAMES`] times (with nothing
/// registered, after [`MIN_WAIT_FRAMES`]), or the round timed out. An item
/// registered late, not yet spawned, holds the Boot gate again.
pub proof fn lemma_gate_opens_only_when_warm(waited: u32, expected: usize, rendered: Seq<u32>)
    ensures
        verdict_spec(waited, expected, rendered) == WarmupVerdict::Done ==> {
            &&& waited < TIMEOUT_FRAMES
            &&& rendered.len() >= expected
            &&& rendered.len() == 0 ==> waited >= MIN_WAIT_FRAMES
            &&& forall|i: int| 0 <= i < rendered.len() ==> rendered[i] >= WARMUP_FRAMES
        },
        (waited < TIMEOUT_FRAMES && rendered.len() < expected) ==> verdict_spec(
            waited,
            expected,
            rendered,
        ) == WarmupVerdict::Wait,
        (waited < TIMEOUT_FRAMES && rendered.len() >= expected && rendered.len() > 0 && forall|
            i: int,
        | 0 <= i < rendered.len() ==> rendered[i] >= WARMUP_FRAMES) ==> verdict_spec(
            waited,
            expected,
            rendered,
        ) == WarmupVerdict::Done,
{
}

/// An item that never draws cannot hang boot: once [`TIMEOUT_FRAMES`] frames
/// have been waited the round is over, whatever was drawn.
pub proof fn lemma_timeout_ends_the_round(waited: u32, expected: usize, rendered: Seq<u32>)
    ensures
        waited >= TIMEOUT_FRAMES ==> verdict_spec(waited, expected, rendered)
            == WarmupVerdict::TimedOut,
        verdict_spec(waited, expected, rendered) == WarmupVerdict::TimedOut ==> waited
            >= TIMEOUT_FRAMES,
{
}

/// Frames an item first drawn on frame `first` has been drawn by the end of
/// frame `k`, when it is drawn on every frame from `first` on.
pub open spec fn drawn_by(first: int, k: int) -> int {
    if k >= first {
        k - first + 1
    } else {
        0
    }
}

/// Each item's rendered-frame count at the end of frame `k` of a round, item
/// `i` being drawn on every frame from `first[i]` on (a `first` beyond the
/// round's last frame: never).
pub open spec fn counts_at(first: Seq<int>, k: int) -> Seq<u32> {
    Seq::new(first.len(), |i: int| drawn_by(first[i], k) as u32)
}

/// The latest frame on which an item starts being drawn (0 with no items).
pub open spec fn latest_first(first: Seq<int>) -> int
    decreases first.len(),
{
    if first.len() == 0 {
        0
    } else if first.len() == 1 {
        first[0]
    } else {
        let rest = latest_first(first.drop_last());
        if rest >= first.last() {
            rest
        } else {
            first.last()
        }
    }
}

/// The first frame of a round on which every item is warm: the latest
/// first-drawn frame plus [`WARMUP_FRAMES`] - 1, or [`MIN_WAIT_FRAMES`] with
/// nothing registered.
pub open spec fn first_warm_frame(first: Seq<int>) -> int {
    if first.len() == 0 {
        MIN_WAIT_FRAMES as int
    } else {
        latest_first(first) + WARMUP_FRAMES - 1
    }
}

proof fn lemma_latest_first(first: Seq<int>, k: int)
    ensures
        first.len() > 0 ==> ((forall|i: int| 0 <= i < first.len() ==> #[trigger] first[i] <= k)
            <==> latest_first(first) <= k),
        first.len() > 0 ==> exists|i: int| 0 <= i < first.len() && first[i] == latest_first(first),
    decreases first.len(),
{
    if first.len() == 1 {
        assert(first[0] == latest_first(first));
    } else if first.len() > 1 {
        let rest = first.drop_last();
        lemma_latest_first(rest, k);
        let j = choose|j: int| 0 <= j < rest.len() && rest[j] == latest_first(rest);
        assert(first[j] == rest[j]);
        assert(first[first.len() - 1] == first.last());
        if (forall|i: int| 0 <= i < first.len() ==> #[trigger] first[i] <= k) {
            assert forall|i: int| 0 <= i < rest.len() implies #[trigger] rest[i] <= k by {
                assert(first[i] <= k);
            }
        }
        if latest_first(first) <= k {
            assert forall|i: int| 0 <= i < first.len() implies #[trigger] first[i] <= k by {
                if i < rest.len() {
                    assert(rest[i] == first[i]);
                }
            }
        }
    }
}

/// A warm-up round over frames 1, 2, … (the Boot gate held throughout, every
/// registered item spawned, item `i` drawn on every frame from `first[i]` on):
/// each frame's counts are the last frame's plus one for every item drawn
/// (what [`WarmupState::frame`] computes), and the round waits exactly until
/// the first frame on which every item is warm — with nothing registered,
/// frame [`MIN_WAIT_FRAMES`] — but never past frame [`TIMEOUT_FRAMES`], even if
/// an item never draws. [`WarmupState::frame`] despawns nothing while it
/// waits, and on the frame the round ends it finishes it, resetting the
/// frames waited and the placement slots.
pub proof fn lemma_round_opens_on_the_first_warm_frame(first: Seq<int>, k: int)
    requires
        forall|i: int| 0 <= i < first.len() ==> #[trigger] first[i] >= 1,
        1 <= k <= TIMEOUT_FRAMES,
    ensures
        forall|i: int|
            0 <= i < first.len() ==> #[trigger] counts_at(first, k)[i] == counts_at(first, k - 1)[i]
                + if k >= first[i] {
                1int
            } else {
                0int
            },
        verdict_spec(k as u32, first.len() as usize, counts_at(first, k)) == if k >= TIMEOUT_FRAMES {
            WarmupVerdict::TimedOut
        } else if k >= first_warm_frame(first) {
            WarmupVerdict::Done
        } else {
            WarmupVerdict::Wait
        },
{
    let c = counts_at(first, k);
    assert forall|i: int| 0 <= i < first.len() implies #[trigger] c[i] == drawn_by(first[i], k) by {}
    lemma_latest_first(first, k - WARMUP_FRAMES + 1);
    if k < TIMEOUT_FRAMES && first.len() > 0 {
        if k >= first_warm_frame(first) {
            assert forall|i: int| 0 <= i < c.len() implies c[i] >= WARMUP_FRAMES by {
                assert(first[i] <= k - WARMUP_FRAMES + 1);
            }
        } else {
            let j = choose|j: int| 0 <= j < first.len() && first[j] == latest_first(first);
            assert(c[j] < WARMUP_FRAMES);
        }
    }
}

} // verus!
