//! Scenario runner bookkeeping: command-line flag lookup and the countdown
//! that lets pending screenshot readbacks land before a scripted session exits.
pub mod fx_check;
pub mod gallery;
pub mod hud_check;
pub mod perf;
pub mod sky_check;
pub mod ttk;

use crate::text::{chars_of, range_is};
use vstd::prelude::*;

verus! {

/// `i` is the first position of `x` in `s`.
pub open spec fn is_first_of<T>(s: Seq<T>, x: T, i: int) -> bool {
    &&& 0 <= i < s.len()
    &&& s[i] == x
    &&& forall|j: int| 0 <= j < i ==> s[j] != x
}

/// The argument after the first occurrence of `flag`, if both exist.
pub open spec fn flag_value_spec(args: Seq<Seq<char>>, flag: Seq<char>) -> Option<Seq<char>> {
    if exists|i: int| is_first_of(args, flag, i) {
        let i = choose|i: int| is_first_of(args, flag, i);
        if i + 1 < args.len() {
            Some(args[i + 1])
        } else {
            None
        }
    } else {
        None
    }
}

/// Whether two strings hold the same characters.
pub fn same_text(a: &str, b: &str) -> (r: bool)
    ensures
        r == (a@ == b@),
{
    let v: Vec<char> = chars_of(a);
    assert(v@.subrange(0, v@.len() as int) =~= v@);
    range_is(&v, 0, v.len(), b)
}

/// The value given to `flag` on the command line: the argument right after
/// its first occurrence.
pub fn flag_value(args: &[String], flag: &str) -> (r: Option<String>)
    ensures
        match flag_value_spec(args@.map_values(|a: String| a@), flag@) {
            Some(v) => r is Some && r->0@ == v,
            None => r is None,
        },
{
    let ghost seen = args@.map_values(|a: String| a@);
    let n: usize = args.len();
    let mut i: usize = 0;
    while i < n
        invariant
            n == args@.len(),
            seen == args@.map_values(|a: String| a@),
            i <= n,
            forall|j: int| 0 <= j < i ==> seen[j] != flag@,
        decreases n - i,
    {
        if same_text(args[i].as_str(), flag) {
            proof {
                assert(seen[i as int] == flag@);
                assert(is_first_of(seen, flag@, i as int));
                let k = choose|k: int| is_first_of(seen, flag@, k);
                if k < i {
                    assert(seen[k] != flag@);
                }
                if i < k {
                    assert(seen[i as int] != flag@);
                }
            }
            if i + 1 < n {
                return Some(args[i + 1].clone());
            } else {
                return None;
            }
        }
        i = i + 1;
    }
    proof {
        if exists|k: int| is_first_of(seen, flag@, k) {
            let k = choose|k: int| is_first_of(seen, flag@, k);
            assert(seen[k] != flag@);
        }
    }
    None
}


/// A string's characters, if there is one.
pub open spec fn text_of(s: Option<String>) -> Option<Seq<char>> {
    match s {
        Some(t) => Some(t@),
        None => None,
    }
}

/// Command-line scenario request:
/// `--scenario <name> [--evidence <dir>] [--seconds <n>] [--warmup <s>]`.
/// The numbers keep their text; reading them (and picking a stamped evidence
/// folder when none is given) is left to the program around the library.
#[derive(Debug, Clone)]
pub struct ScenarioArgs {
    pub name: String,
    pub out: Option<String>,
    pub seconds: Option<String>,
    pub warmup: Option<String>,
}

impl ScenarioArgs {
    /// The request on the command line; `None` without `--scenario <name>`.
    pub fn from_args(args: &[String]) -> (r: Option<Self>)
        ensures
            ({
                let seen = args@.map_values(|a: String| a@);
                match flag_value_spec(seen, "--scenario"@) {
                    None => r is None,
                    Some(name) => r matches Some(a) && {
                        &&& a.name@ == name
                        &&& text_of(a.out) == flag_value_spec(seen, "--evidence"@)
                        &&& text_of(a.seconds) == flag_value_spec(seen, "--seconds"@)
                        &&& text_of(a.warmup) == flag_value_spec(seen, "--warmup"@)
                    },
                }
            }),
    {
        let name = match flag_value(args, "--scenario") {
            Some(n) => n,
            None => return None,
        };
        let out = flag_value(args, "--evidence");
        let seconds = flag_value(args, "--seconds");
        let warmup = flag_value(args, "--warmup");
        Some(ScenarioArgs { name, out, seconds, warmup })
    }
}

/// The scripted sessions a scenario name can start.
#[derive(Debug, Clone, Copy, PartialEq, Eq, Structural)]
pub enum ScenarioKind {
    Smoke,
    Gallery,
    Perf,
    Ttk,
    Latency,
    FxCheck,
}

/// The session a scenario name starts.
pub open spec fn scenario_for(name: Seq<char>) -> Option<ScenarioKind> {
    if name == "smoke"@ {
        Some(ScenarioKind::Smoke)
    } else if name == "gallery"@ {
        Some(ScenarioKind::Gallery)
    } else if name == "perf"@ {
        Some(ScenarioKind::Perf)
    } else if name == "ttk"@ {
        Some(ScenarioKind::Ttk)
    } else if name == "latency"@ {
        Some(ScenarioKind::Latency)
    } else if name == "fx_check"@ {
        Some(ScenarioKind::FxCheck)
    } else {
        None
    }
}

/// Which session a scenario name starts; `None` for an unknown name.
pub fn director_for(name: &str) -> (r: Option<ScenarioKind>)
    ensures
        r == scenario_for(name@),
{
    if same_text(name, "smoke") {
        Some(ScenarioKind::Smoke)
    } else if same_text(name, "gallery") {
        Some(ScenarioKind::Gallery)
    } else if same_text(name, "perf") {
        Some(ScenarioKind::Perf)
    } else if same_text(name, "ttk") {
        Some(ScenarioKind::Ttk)
    } else if same_text(name, "latency") {
        Some(ScenarioKind::Latency)
    } else if same_text(name, "fx_check") {
        Some(ScenarioKind::FxCheck)
    } else {
        None
    }
}

/// Frames a finished scenario keeps running so pending screenshot readbacks
/// land before it exits.
pub const EXIT_COUNTDOWN_FRAMES: u32 = 30;

/// What a scripted session reports each frame.
#[derive(Debug, Clone, Copy, PartialEq, Eq, Structural)]
pub enum DirectorStatus {
    Running,
    Done,
}

/// What the runner does this frame.
#[derive(Debug, Clone, Copy, PartialEq, Eq, Structural)]
pub enum DriveStep {
    /// Give the frame to the director.
    RunDirector,
    /// The director is done; wait for readbacks.
    Wait,
    /// Write the evidence and exit.
    Finish,
}

/// One frame of the exit countdown: (countdown after the frame, step).
pub open spec fn countdown_model(countdown: Option<u32>) -> (Option<u32>, DriveStep) {
    match countdown {
        None => (None, DriveStep::RunDirector),
        Some(n) => if n == 0 {
            (Some(0u32), DriveStep::Finish)
        } else {
            (Some((n - 1) as u32), DriveStep::Wait)
        },
    }
}

/// The countdown after `k` frames.
pub open spec fn countdown_after(countdown: Option<u32>, k: nat) -> Option<u32>
    decreases k,
{
    if k == 0 {
        countdown
    } else {
        countdown_model(countdown_after(countdown, (k - 1) as nat)).0
    }
}

/// Frame counting and the exit countdown of a running scenario.
#[derive(Debug, Clone, PartialEq, Eq)]
pub struct ScenarioProgress {
    frame: u64,
    exit_countdown: Option<u32>,
}

impl ScenarioProgress {
    /// Frames played so far.
    pub closed spec fn frames(self) -> u64 {
        self.frame
    }

    /// Frames left before exiting, once the director is done.
    pub closed spec fn countdown(self) -> Option<u32> {
        self.exit_countdown
    }

    pub fn new() -> (r: Self)
        ensures
            r.frames() == 0,
            r.countdown() is None,
    {
        ScenarioProgress { frame: 0, exit_countdown: None }
    }

    /// Frames played so far.
    pub fn frame(&self) -> (r: u64)
        ensures
            r == self.frames(),
    {
        self.frame
    }

    /// Starts a playing frame: counts it and says what to do with it.
    pub fn begin_frame(&mut self) -> (r: DriveStep)
        requires
            old(self).frames() < u64::MAX,
        ensures
            final(self).frames() == old(self).frames() + 1,
            (final(self).countdown(), r) == countdown_model(old(self).countdown()),
    {
        self.frame = self.frame + 1;
        match self.exit_countdown {
            None => DriveStep::RunDirector,
            Some(remaining) => {
                if remaining == 0 {
                    DriveStep::Finish
                } else {
                    self.exit_countdown = Some(remaining - 1);
                    DriveStep::Wait
                }
            },
        }
    }

    /// The director's verdict for a frame it ran: once it is done, the
    /// countdown starts.
    pub fn director_reported(&mut self, status: DirectorStatus)
        ensures
            final(self).frames() == old(self).frames(),
            final(self).countdown() == if status == DirectorStatus::Done {
                Some(EXIT_COUNTDOWN_FRAMES)
            } else {
                old(self).countdown()
            },
    {
        if status == DirectorStatus::Done {
            self.exit_countdown = Some(EXIT_COUNTDOWN_FRAMES);
        }
    }
}

/// After the director reports done, the runner waits exactly
/// [`EXIT_COUNTDOWN_FRAMES`] frames and finishes on the next one.
pub proof fn lemma_exit_after_countdown(k: nat)
    requires
        k <= EXIT_COUNTDOWN_FRAMES,
    ensures
        countdown_after(Some(EXIT_COUNTDOWN_FRAMES), k) == Some((EXIT_COUNTDOWN_FRAMES - k) as u32),
        k < EXIT_COUNTDOWN_FRAMES ==> countdown_model(
            countdown_after(Some(EXIT_COUNTDOWN_FRAMES), k),
        ).1 == DriveStep::Wait,
        k == EXIT_COUNTDOWN_FRAMES ==> countdown_model(
            countdown_after(Some(EXIT_COUNTDOWN_FRAMES), k),
        ).1 == DriveStep::Finish,
    decreases k,
{
    if k > 0 {
        lemma_exit_after_countdown((k - 1) as nat);
    }
}

} // verus!
