//! Render pipeline decisions: the quality preset, present mode and frame pacing.
//!
//! Times are nanoseconds on one monotonic clock (the caller picks its zero);
//! durations are nanoseconds.
use vstd::prelude::*;

verus! {

#[derive(Debug, Clone, Copy, PartialEq, Eq, Structural)]
pub enum QualityPreset {
    /// Default: tuned to hold 60 fps on battery with Low Power Mode on.
    Battery,
    /// A bigger pixel budget and denser grass when plugged in.
    PluggedIn,
}

impl Default for QualityPreset {
    fn default() -> (r: Self)
        ensures
            r == QualityPreset::Battery,
    {
        QualityPreset::Battery
    }
}


/// How frames are presented: vsync (`Fifo`), or no vsync (`AutoNoVsync`,
/// Immediate on Metal) paced by the frame limiter.
#[derive(Debug, Clone, Copy, PartialEq, Eq, Structural)]
pub enum PresentMode {
    Fifo,
    AutoNoVsync,
}

/// The present mode the graphics settings ask for.
pub fn present_mode_for(vsync: bool) -> (r: PresentMode)
    ensures
        r == (if vsync {
            PresentMode::Fifo
        } else {
            PresentMode::AutoNoVsync
        }),
{
    if vsync {
        PresentMode::Fifo
    } else {
        PresentMode::AutoNoVsync
    }
}

/// The limiter sleeps until this much before the deadline, then spins, because
/// `thread::sleep` on macOS can overshoot by a fraction of a millisecond.
pub const LIMITER_SPIN_NS: u64 = 1_000_000;

/// The deadline for a frame finishing at `now`, after the previous deadline
/// `previous` (if any): the next slot of the cadence, unless the frame overran
/// that slot by more than half an interval, which restarts the cadence at `now`.
pub open spec fn next_deadline_spec(previous: Option<u64>, interval: u64, now: u64) -> int {
    match previous {
        None => now as int,
        Some(p) => {
            let next = p + interval;
            if now > next + interval / 2 {
                now as int
            } else {
                next
            }
        },
    }
}

/// Frame-cap arithmetic: a fixed cadence of frame deadlines `interval` apart.
#[derive(Debug, Clone, PartialEq, Eq)]
pub struct FramePacer {
    interval: u64,
    deadline: Option<u64>,
}

impl FramePacer {
    /// The pacer's interval (ns).
    pub closed spec fn interval_ns(self) -> u64 {
        self.interval
    }

    /// The latest deadline handed out, if any.
    pub closed spec fn last_deadline(self) -> Option<u64> {
        self.deadline
    }

    /// A pacer with frames `interval` ns apart and no deadline yet.
    pub fn new(interval: u64) -> (r: Self)
        ensures
            r.interval_ns() == interval,
            r.last_deadline() is None,
    {
        FramePacer { interval, deadline: None }
    }

    pub fn interval(&self) -> (r: u64)
        ensures
            r == self.interval_ns(),
    {
        self.interval
    }

    /// When the frame finishing at `now` should end. Deadlines keep a fixed
    /// cadence, so a slightly late frame is followed by a shorter wait. A frame
    /// that overruns its slot by more than half an interval restarts the cadence
    /// at `now` rather than rushing several frames to catch up.
    pub fn next_deadline(&mut self, now: u64) -> (r: u64)
        requires
            old(self).last_deadline() matches Some(p) ==> p + old(self).interval_ns()
                + old(self).interval_ns() / 2 <= u64::MAX,
        ensures
            r == next_deadline_spec(old(self).last_deadline(), old(self).interval_ns(), now),
            final(self).last_deadline() == Some(r),
            final(self).interval_ns() == old(self).interval_ns(),
    {
        let deadline: u64 = match self.deadline {
            None => now,
            Some(previous) => {
                let next: u64 = previous + self.interval;
                if now > next + self.interval / 2 {
                    now
                } else {
                    next
                }
            },
        };
        self.deadline = Some(deadline);
        deadline
    }
}

/// The interval the frame limiter runs at: none with vsync on, else the
/// frame cap's interval (`cap_interval`, none when uncapped).
pub open spec fn limit_interval(vsync: bool, cap_interval: Option<u64>) -> Option<u64> {
    if vsync {
        None
    } else {
        cap_interval
    }
}

/// Brings the render-world frame limiter in line with the graphics settings:
/// off with vsync on or no cap; a running pacer whose interval still matches
/// is kept (its cadence goes on), otherwise a fresh one starts.
pub fn refresh_limiter(limiter: &mut Option<FramePacer>, vsync: bool, cap_interval: Option<u64>)
    ensures
        match limit_interval(vsync, cap_interval) {
            None => *final(limiter) is None,
            Some(i) => if *old(limiter) matches Some(p) && p.interval_ns() == i {
                *final(limiter) == *old(limiter)
            } else {
                *final(limiter) matches Some(p) && p.interval_ns() == i && p.last_deadline() is None
            },
        },
{
    let wanted: Option<u64> = if vsync {
        None
    } else {
        cap_interval
    };
    let current: Option<u64> = match limiter {
        Some(p) => Some(p.interval()),
        None => None,
    };
    if current != wanted {
        *limiter = match wanted {
            Some(i) => Some(FramePacer::new(i)),
            None => None,
        };
    }
}

/// How to wait from `now` until `deadline`: (sleep, then spin). The spin part
/// is at most `spin`, and together they cover exactly the time left (none
/// once the deadline has passed).
pub fn wait_split(now: u64, deadline: u64, spin: u64) -> (r: (u64, u64))
    ensures
        r.0 + r.1 == (if deadline > now {
            deadline - now
        } else {
            0
        }),
        r.0 == (if deadline > now + spin {
            deadline - now - spin
        } else {
            0
        }),
        r.1 <= spin,
{
    let total: u64 = deadline.saturating_sub(now);
    let sleep: u64 = total.saturating_sub(spin);
    (sleep, total - sleep)
}

/// Cadence: a frame that finishes within half an interval past its slot gets
/// the very next slot, so the deadlines stay `interval` apart.
pub proof fn lemma_pacer_keeps_cadence(previous: u64, interval: u64, now: u64)
    requires
        now <= previous + interval + interval / 2,
    ensures
        next_deadline_spec(Some(previous), interval, now) == previous + interval,
{
}

/// No catch-up bursts: whatever the previous deadline, the next one is never
/// more than half an interval in the past.
pub proof fn lemma_pacer_never_rushes(previous: Option<u64>, interval: u64, now: u64)
    ensures
        next_deadline_spec(previous, interval, now) >= now - interval / 2,
        previous is None ==> next_deadline_spec(previous, interval, now) == now,
{
}

/// Fixed spacing: each deadline after the first comes at least one interval
/// after the previous one, whether it keeps the cadence or restarts it.
pub proof fn lemma_deadlines_keep_their_spacing(previous: u64, interval: u64, now: u64)
    ensures
        next_deadline_spec(Some(previous), interval, now) >= previous + interval,
        next_deadline_spec(Some(previous), interval, now) == if now > previous + interval
            + interval / 2 {
            now as int
        } else {
            previous + interval
        },
{
}

} // verus!
