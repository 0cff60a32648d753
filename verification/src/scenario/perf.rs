//! The `perf` session's bookkeeping: the activities its seeded script cycles
//! through (each cycle a seeded shuffle of all of them), the load counters, and
//! the rule that breaks the oldest player-built pieces so the arena never fills
//! up.
use crate::rng::{advance, output, state_after, Rng};
use crate::shared::PieceChange;
use std::collections::VecDeque;
use vstd::prelude::*;

verus! {

broadcast use vstd::seq_lib::group_to_multiset_ensures, vstd::std_specs::vecdeque::group_vec_dequeue_axioms;

/// Seed of the scripted session.
pub const SEED: u64 = 0x9E_12F0;
/// When more player-built pieces than this stand, the oldest are broken…
pub const MAX_LIVE_PIECES: usize = 40;
/// …down to this many.
pub const KEEP_LIVE_PIECES: usize = 28;

/// One kind of heavy play the script cycles through.
#[derive(Debug, Clone, Copy, PartialEq, Eq, Structural, Hash)]
pub enum Activity {
    Run,
    Slide,
    Jump,
    BoxUp,
    RampRush,
    Spray,
    Pump,
    SwitchGuns,
    BreakPieces,
}

/// Every activity, in their listed order.
pub open spec fn all_activities() -> Seq<Activity> {
    seq![
        Activity::Run,
        Activity::Slide,
        Activity::Jump,
        Activity::BoxUp,
        Activity::RampRush,
        Activity::Spray,
        Activity::Pump,
        Activity::SwitchGuns,
        Activity::BreakPieces,
    ]
}

/// An activity's name in the session summary.
pub open spec fn activity_name(a: Activity) -> Seq<char> {
    match a {
        Activity::Run => "run"@,
        Activity::Slide => "slide"@,
        Activity::Jump => "jump"@,
        Activity::BoxUp => "box_up"@,
        Activity::RampRush => "ramp_rush"@,
        Activity::Spray => "spray"@,
        Activity::Pump => "pump"@,
        Activity::SwitchGuns => "switch_guns"@,
        Activity::BreakPieces => "break_pieces"@,
    }
}

/// An activity's duration range, in milliseconds.
pub open spec fn duration_range(a: Activity) -> (u32, u32) {
    match a {
        Activity::Run => (3000, 5000),
        Activity::Slide => (2500, 3500),
        Activity::Jump => (2500, 3500),
        Activity::BoxUp => (1600, 1600),
        Activity::RampRush => (3000, 4000),
        Activity::Spray => (3000, 4500),
        Activity::Pump => (3000, 4500),
        Activity::SwitchGuns => (2500, 3500),
        Activity::BreakPieces => (3000, 4000),
    }
}

/// An activity's position in the listed order.
pub open spec fn activity_position(a: Activity) -> int {
    match a {
        Activity::Run => 0,
        Activity::Slide => 1,
        Activity::Jump => 2,
        Activity::BoxUp => 3,
        Activity::RampRush => 4,
        Activity::Spray => 5,
        Activity::Pump => 6,
        Activity::SwitchGuns => 7,
        Activity::BreakPieces => 8,
    }
}

impl Activity {
    pub const ALL: [Activity; 9] = [
        Activity::Run,
        Activity::Slide,
        Activity::Jump,
        Activity::BoxUp,
        Activity::RampRush,
        Activity::Spray,
        Activity::Pump,
        Activity::SwitchGuns,
        Activity::BreakPieces,
    ];

    pub fn name(self) -> (r: &'static str)
        ensures
            r@ == activity_name(self),
    {
        match self {
            Activity::Run => "run",
            Activity::Slide => "slide",
            Activity::Jump => "jump",
            Activity::BoxUp => "box_up",
            Activity::RampRush => "ramp_rush",
            Activity::Spray => "spray",
            Activity::Pump => "pump",
            Activity::SwitchGuns => "switch_guns",
            Activity::BreakPieces => "break_pieces",
        }
    }

    /// The activity's position in [`Activity::ALL`].
    pub fn index(self) -> (r: usize)
        ensures
            r == activity_position(self),
            all_activities()[r as int] == self,
    {
        match self {
            Activity::Run => 0,
            Activity::Slide => 1,
            Activity::Jump => 2,
            Activity::BoxUp => 3,
            Activity::RampRush => 4,
            Activity::Spray => 5,
            Activity::Pump => 6,
            Activity::SwitchGuns => 7,
            Activity::BreakPieces => 8,
        }
    }

    /// Duration range of one stretch of this activity, in milliseconds
    /// (shortest, longest).
    pub fn duration_ms(self) -> (r: (u32, u32))
        ensures
            r == duration_range(self),
            r.0 <= r.1,
    {
        match self {
            Activity::Run => (3000, 5000),
            Activity::Slide => (2500, 3500),
            Activity::Jump => (2500, 3500),
            Activity::BoxUp => (1600, 1600),
            Activity::RampRush => (3000, 4000),
            Activity::Spray => (3000, 4500),
            Activity::Pump => (3000, 4500),
            Activity::SwitchGuns => (2500, 3500),
            Activity::BreakPieces => (3000, 4000),
        }
    }
}

/// `s` with the items at `i` and `j` exchanged.
pub open spec fn swapped<T>(s: Seq<T>, i: int, j: int) -> Seq<T> {
    s.update(i, s[j]).update(j, s[i])
}

/// Fisher–Yates from position `i` down to 1: position `i` trades places with
/// the one drawn uniformly from `0..=i`, each draw from the generator in
/// `state` and the next.
pub open spec fn shuffle_down(s: Seq<Activity>, state: u64, i: int) -> Seq<Activity>
    decreases i,
{
    if i <= 0 || i >= s.len() {
        s
    } else {
        let j = output(state) as int % (i + 1);
        shuffle_down(swapped(s, i, j), advance(state), i - 1)
    }
}

/// The order of the activities in the cycle drawn from a generator in `state`.
pub open spec fn cycle_order(state: u64) -> Seq<Activity> {
    shuffle_down(all_activities(), state, 8)
}

proof fn lemma_swap_keeps_items<T>(s: Seq<T>, i: int, j: int)
    requires
        0 <= i < s.len(),
        0 <= j < s.len(),
    ensures
        swapped(s, i, j).to_multiset() == s.to_multiset(),
        swapped(s, i, j).len() == s.len(),
{
    broadcast use vstd::seq_lib::to_multiset_update;
    broadcast use vstd::multiset::group_multiset_axioms;

    let t = s.update(i, s[j]);
    assert(t[j] == s[j]);
    assert(t.to_multiset() =~= s.to_multiset().insert(s[j]).remove(s[i]));
    assert(t.update(j, s[i]).to_multiset() =~= t.to_multiset().insert(s[i]).remove(t[j]));
    assert(swapped(s, i, j).to_multiset() =~= s.to_multiset());
}

proof fn lemma_shuffle_keeps_items(s: Seq<Activity>, state: u64, i: int)
    ensures
        shuffle_down(s, state, i).to_multiset() == s.to_multiset(),
        shuffle_down(s, state, i).len() == s.len(),
    decreases i,
{
    if 0 < i < s.len() {
        let j = output(state) as int % (i + 1);
        lemma_swap_keeps_items(s, i, j);
        lemma_shuffle_keeps_items(swapped(s, i, j), advance(state), i - 1);
    }
}

/// Every cycle of the session holds each activity exactly once, whatever the
/// seed.
pub proof fn lemma_cycle_holds_each_activity_once(state: u64, a: Activity)
    ensures
        cycle_order(state).len() == 9,
        cycle_order(state).to_multiset().count(a) == 1,
{
    let all = all_activities();
    lemma_shuffle_keeps_items(all, state, 8);
    assert(all.no_duplicates()) by {
        assert forall|p: int, q: int| 0 <= p < all.len() && 0 <= q < all.len() && p != q implies all[p]
            != all[q] by {}
    }
    all.lemma_multiset_has_no_duplicates();
    assert(all[activity_position(a)] == a);
    assert(all.contains(a));
}

proof fn lemma_shuffle_keeps_above(s: Seq<Activity>, state: u64, i: int, k: int)
    requires
        i < k < s.len(),
    ensures
        shuffle_down(s, state, i)[k] == s[k],
        shuffle_down(s, state, i).len() == s.len(),
    decreases i,
{
    if 0 < i {
        let j = output(state) as int % (i + 1);
        lemma_shuffle_keeps_above(swapped(s, i, j), advance(state), i - 1, k);
    }
}

/// One Fisher–Yates step: position `i` (of those still being shuffled) ends
/// up holding the item that was at the position drawn from `0..=i` (it may be
/// `i` itself, so an item can keep its place), and the positions above `i`
/// are already final.
pub proof fn lemma_shuffle_settles_the_top(s: Seq<Activity>, state: u64, i: int)
    requires
        0 < i < s.len(),
    ensures
        shuffle_down(s, state, i)[i] == s[output(state) as int % (i + 1)],
        forall|k: int| i < k < s.len() ==> shuffle_down(s, state, i)[k] == s[k],
{
    let j = output(state) as int % (i + 1);
    let t = swapped(s, i, j);
    assert(t[i] == s[j]);
    lemma_shuffle_keeps_above(t, advance(state), i - 1, i);
    assert forall|k: int| i < k < s.len() implies shuffle_down(s, state, i)[k] == s[k] by {
        lemma_shuffle_keeps_above(t, advance(state), i - 1, k);
    }
}

/// The cycle's last activity is the listed activity at the position given by
/// the first draw modulo nine: any of the nine, `BreakPieces` (listed last)
/// included.
pub proof fn lemma_cycle_ends_with_the_first_pick(state: u64)
    ensures
        cycle_order(state)[8] == all_activities()[output(state) as int % 9],
        output(state) % 9 == 8 ==> cycle_order(state)[8] == Activity::BreakPieces,
{
    lemma_shuffle_settles_the_top(all_activities(), state, 8);
}

/// One cycle of the session: every activity once, in the order of a seeded
/// Fisher–Yates shuffle (eight draws from `rng`).
pub fn shuffled_cycle(rng: &mut Rng) -> (r: Vec<Activity>)
    ensures
        r@ == cycle_order(old(rng)@),
        r@.to_multiset() == all_activities().to_multiset(),
        final(rng)@ == state_after(old(rng)@, 8),
{
    let mut cycle: Vec<Activity> = vec![
        Activity::Run,
        Activity::Slide,
        Activity::Jump,
        Activity::BoxUp,
        Activity::RampRush,
        Activity::Spray,
        Activity::Pump,
        Activity::SwitchGuns,
        Activity::BreakPieces,
    ];
    assert(cycle@ =~= all_activities());
    let ghost start = rng@;
    let mut i: usize = 8;
    while i >= 1
        invariant
            i <= 8,
            cycle@.len() == 9,
            shuffle_down(cycle@, rng@, i as int) == cycle_order(start),
            rng@ == state_after(start, (8 - i) as nat),
            cycle@.to_multiset() == all_activities().to_multiset(),
        decreases i,
    {
        let ghost before = cycle@;
        let ghost state = rng@;
        let x: u64 = rng.next_u64();
        let j: usize = (x % (i as u64 + 1)) as usize;
        let a: Activity = cycle[i];
        let b: Activity = cycle[j];
        cycle.set(i, b);
        cycle.set(j, a);
        proof {
            assert(cycle@ =~= swapped(before, i as int, j as int));
            lemma_swap_keeps_items(before, i as int, j as int);
            assert(state_after(start, (8 - i + 1) as nat) == advance(
                state_after(start, (8 - i) as nat),
            ));
        }
        i = i - 1;
    }
    cycle
}

/// Load counters of a session (the player's shots, and pieces from the
/// piece messages).
#[derive(Debug, Clone, Copy, PartialEq, Eq, Structural, Default)]
pub struct Load {
    pub shots: u32,
    pub hits: u32,
    pub headshots: u32,
    pub eliminations: u32,
    pub placed: u32,
    pub destroyed: u32,
    pub cleanup_breaks: u32,
}

/// `a - b`, or 0 when `b` is larger.
pub open spec fn sat_sub(a: u32, b: u32) -> u32 {
    if a >= b {
        (a - b) as u32
    } else {
        0
    }
}

impl Load {
    /// The load between `earlier` and this, counter by counter (never below
    /// zero).
    pub fn minus(self, earlier: Load) -> (r: Load)
        ensures
            r.shots == sat_sub(self.shots, earlier.shots),
            r.hits == sat_sub(self.hits, earlier.hits),
            r.headshots == sat_sub(self.headshots, earlier.headshots),
            r.eliminations == sat_sub(self.eliminations, earlier.eliminations),
            r.placed == sat_sub(self.placed, earlier.placed),
            r.destroyed == sat_sub(self.destroyed, earlier.destroyed),
            r.cleanup_breaks == sat_sub(self.cleanup_breaks, earlier.cleanup_breaks),
    {
        Load {
            shots: self.shots.saturating_sub(earlier.shots),
            hits: self.hits.saturating_sub(earlier.hits),
            headshots: self.headshots.saturating_sub(earlier.headshots),
            eliminations: self.eliminations.saturating_sub(earlier.eliminations),
            placed: self.placed.saturating_sub(earlier.placed),
            destroyed: self.destroyed.saturating_sub(earlier.destroyed),
            cleanup_breaks: self.cleanup_breaks.saturating_sub(earlier.cleanup_breaks),
        }
    }
}

/// The items of `live` whose `standing` flag is set, in order.
pub open spec fn still_standing(live: Seq<u64>, standing: Seq<bool>) -> Seq<u64>
    decreases live.len(),
{
    if live.len() == 0 {
        Seq::empty()
    } else {
        let rest = still_standing(live.drop_last(), standing.drop_last());
        if standing.last() {
            rest.push(live.last())
        } else {
            rest
        }
    }
}

/// How many of the oldest pieces the cleanup breaks when `n` stand.
pub open spec fn cleanup_count(n: int) -> int {
    if n > MAX_LIVE_PIECES {
        n - KEEP_LIVE_PIECES
    } else {
        0
    }
}

/// The player-built pieces of a session (each by its entity's bits), oldest
/// first, and the piece counters.
#[derive(Debug, Clone)]
pub struct PieceLedger {
    pub live: VecDeque<u64>,
    /// The most player-built pieces that stood at once.
    pub max_live: usize,
    pub placed: u32,
    pub destroyed: u32,
    /// Pieces broken by the cleanup rule.
    pub cleanup_breaks: u32,
}

impl PieceLedger {
    pub fn new() -> (r: Self)
        ensures
            r.live@ == Seq::<u64>::empty(),
            r.max_live == 0,
            r.placed == 0,
            r.destroyed == 0,
            r.cleanup_breaks == 0,
    {
        PieceLedger { live: VecDeque::new(), max_live: 0, placed: 0, destroyed: 0, cleanup_breaks: 0 }
    }

    /// Counts one piece message: a placed piece joins the live pieces as the
    /// newest; a break is counted; a crack changes nothing.
    pub fn note(&mut self, entity: u64, change: PieceChange)
        requires
            change == PieceChange::Placed ==> old(self).placed < u32::MAX,
            change == PieceChange::Destroyed ==> old(self).destroyed < u32::MAX,
        ensures
            final(self).max_live == old(self).max_live,
            final(self).cleanup_breaks == old(self).cleanup_breaks,
            change == PieceChange::Placed ==> {
                &&& final(self).placed == old(self).placed + 1
                &&& final(self).live@ == old(self).live@.push(entity)
                &&& final(self).destroyed == old(self).destroyed
            },
            change == PieceChange::Destroyed ==> {
                &&& final(self).destroyed == old(self).destroyed + 1
                &&& final(self).live@ == old(self).live@
                &&& final(self).placed == old(self).placed
            },
            change is Cracked ==> {
                &&& final(self).live@ == old(self).live@
                &&& final(self).placed == old(self).placed
                &&& final(self).destroyed == old(self).destroyed
            },
    {
        match change {
            PieceChange::Placed => {
                self.placed = self.placed + 1;
                self.live.push_back(entity);
            },
            PieceChange::Destroyed => {
                self.destroyed = self.destroyed + 1;
            },
            PieceChange::Cracked(_) => {},
        }
    }

    /// Forgets the pieces that no longer stand (`standing[i]` tells whether
    /// `live[i]` does) and remembers the most that stood at once.
    pub fn keep_standing(&mut self, standing: &[bool])
        requires
            standing@.len() == old(self).live@.len(),
        ensures
            final(self).live@ == still_standing(old(self).live@, standing@),
            final(self).max_live == if old(self).max_live >= final(self).live@.len() {
                old(self).max_live as int
            } else {
                final(self).live@.len() as int
            },
            final(self).placed == old(self).placed,
            final(self).destroyed == old(self).destroyed,
            final(self).cleanup_breaks == old(self).cleanup_breaks,
    {
        let n: usize = self.live.len();
        let mut kept: VecDeque<u64> = VecDeque::new();
        let mut i: usize = 0;
        while i < n
            invariant
                n == self.live@.len(),
                n == standing@.len(),
                i <= n,
                kept@ == still_standing(self.live@.take(i as int), standing@.take(i as int)),
                kept@.len() <= i,
            decreases n - i,
        {
            proof {
                assert(self.live@.take(i + 1).drop_last() =~= self.live@.take(i as int));
                assert(standing@.take(i + 1).drop_last() =~= standing@.take(i as int));
            }
            if standing[i] {
                kept.push_back(self.live[i]);
            }
            i = i + 1;
        }
        proof {
            assert(self.live@.take(n as int) =~= self.live@);
            assert(standing@.take(n as int) =~= standing@);
        }
        self.live = kept;
        if self.live.len() > self.max_live {
            self.max_live = self.live.len();
        }
    }

    /// Breaks the oldest pieces so the arena never fills up: when more than
    /// [`MAX_LIVE_PIECES`] stand, the oldest go until [`KEEP_LIVE_PIECES`]
    /// are left. Returns the pieces to break, oldest first.
    pub fn cleanup(&mut self) -> (r: Vec<u64>)
        requires
            old(self).cleanup_breaks + cleanup_count(old(self).live@.len() as int) <= u32::MAX,
        ensures
            r@ == old(self).live@.take(cleanup_count(old(self).live@.len() as int)),
            final(self).live@ == old(self).live@.skip(
                cleanup_count(old(self).live@.len() as int),
            ),
            final(self).live@.len() <= MAX_LIVE_PIECES,
            final(self).cleanup_breaks == old(self).cleanup_breaks + r@.len(),
            final(self).max_live == old(self).max_live,
            final(self).placed == old(self).placed,
            final(self).destroyed == old(self).destroyed,
    {
        let n: usize = self.live.len();
        if n <= MAX_LIVE_PIECES {
            assert(self.live@.take(0) =~= Seq::<u64>::empty());
            assert(self.live@.skip(0) =~= self.live@);
            return Vec::new();
        }
        let cut: usize = n - KEEP_LIVE_PIECES;
        let ghost start = self.live@;
        let mut broken: Vec<u64> = Vec::new();
        while self.live.len() > KEEP_LIVE_PIECES
            invariant
                n == start.len(),
                cut == n - KEEP_LIVE_PIECES,
                n > MAX_LIVE_PIECES,
                broken@.len() <= cut,
                broken@ == start.take(broken@.len() as int),
                self.live@ == start.skip(broken@.len() as int),
                self.cleanup_breaks == old(self).cleanup_breaks,
                self.max_live == old(self).max_live,
                self.placed == old(self).placed,
                self.destroyed == old(self).destroyed,
            decreases self.live@.len(),
        {
            match self.live.pop_front() {
                Some(old_piece) => {
                    broken.push(old_piece);
                    assert(broken@ =~= start.take(broken@.len() as int));
                    assert(self.live@ =~= start.skip(broken@.len() as int));
                },
                None => {},
            }
        }
        assert(broken@.len() == cut);
        self.cleanup_breaks = self.cleanup_breaks + cut as u32;
        broken
    }
}

} // verus!
