use vstd::prelude::*;

verus! {

/// Watches one rate-limit window for resets: whether a window was seen yet,
/// and the reset time last seen.
#[derive(Clone, Copy, Debug, PartialEq, Eq, Structural)]
pub struct ResetWatch {
    pub seen_window: bool,
    pub last_resets_at: Option<i64>,
}

/// Whether a reading of the reset time means that the window was reset: a
/// window was seen before, and both the earlier and the new reset times are
/// known, the new one later.
pub open spec fn reset_moved(w: ResetWatch, current: Option<i64>) -> bool {
    w.seen_window && w.last_resets_at is Some && current is Some && current.unwrap()
        > w.last_resets_at.unwrap()
}

impl ResetWatch {
    /// A watch that has seen nothing.
    pub fn new() -> (res: ResetWatch)
        ensures
            res == (ResetWatch { seen_window: false, last_resets_at: None }),
    {
        ResetWatch { seen_window: false, last_resets_at: None }
    }

    /// Takes a new reading of the window's reset time; returns whether to
    /// announce a reset.
    pub fn observe(&mut self, current: Option<i64>) -> (notify: bool)
        ensures
            notify == reset_moved(*old(self), current),
            *final(self) == (ResetWatch { seen_window: true, last_resets_at: current }),
    {
        let notify = self.seen_window && match (self.last_resets_at, current) {
            (Some(previous), Some(now)) => now > previous,
            _ => false,
        };
        self.seen_window = true;
        self.last_resets_at = current;
        notify
    }
}

/// How far ahead of the expected pace the 5-hour window is used: `calm` when
/// at most 5 points ahead, `fast` when at least 10 points ahead.
#[derive(Clone, Copy, Debug, PartialEq, Eq, Structural)]
pub struct PaceReading {
    pub calm: bool,
    pub fast: bool,
}

/// The fast-pace alert: whether it has fired in the current window, and that
/// window's reset time.
#[derive(Clone, Copy, Debug, PartialEq, Eq, Structural)]
pub struct PaceAlert {
    pub active: bool,
    pub window: Option<i64>,
}

/// The alert state at the start of a reading: cleared when the window changed.
pub open spec fn pace_window_state(a: PaceAlert, resets_at: Option<i64>) -> PaceAlert {
    if resets_at != a.window {
        PaceAlert { active: false, window: resets_at }
    } else {
        a
    }
}

/// Whether a reading fires the alert.
pub open spec fn pace_fires(a: PaceAlert, resets_at: Option<i64>, pace: Option<PaceReading>) -> bool {
    let s = pace_window_state(a, resets_at);
    match pace {
        None => false,
        Some(p) => !(s.active && !p.calm) && p.fast,
    }
}

/// The alert state after a reading.
pub open spec fn pace_after(a: PaceAlert, resets_at: Option<i64>, pace: Option<PaceReading>) -> PaceAlert {
    let s = pace_window_state(a, resets_at);
    match pace {
        None => PaceAlert { active: false, ..s },
        Some(p) => {
            let active = s.active && !p.calm;
            PaceAlert { active: active || p.fast, ..s }
        },
    }
}

impl PaceAlert {
    /// An alert that has not fired.
    pub fn new() -> (res: PaceAlert)
        ensures
            res == (PaceAlert { active: false, window: None }),
    {
        PaceAlert { active: false, window: None }
    }

    /// Takes a reading of the 5-hour window (its reset time and pace, where
    /// there is one); returns whether to warn about fast use.
    pub fn observe(&mut self, resets_at: Option<i64>, pace: Option<PaceReading>) -> (notify: bool)
        ensures
            notify == pace_fires(*old(self), resets_at, pace),
            *final(self) == pace_after(*old(self), resets_at, pace),
    {
        if resets_at != self.window {
            self.active = false;
            self.window = resets_at;
        }
        match pace {
            None => {
                self.active = false;
                false
            },
            Some(p) => {
                if p.calm {
                    self.active = false;
                }
                if !self.active && p.fast {
                    self.active = true;
                    true
                } else {
                    false
                }
            },
        }
    }
}

/// A reset is never announced on the first reading of a window, and every
/// reading is remembered.
pub proof fn lemma_first_reading_is_quiet(current: Option<i64>)
    ensures
        !reset_moved(ResetWatch { seen_window: false, last_resets_at: None }, current),
{
}

/// Readings of an unchanged reset time never announce a reset.
pub proof fn lemma_same_reset_is_quiet(w: ResetWatch, r: Option<i64>)
    requires
        w.last_resets_at == r,
    ensures
        !reset_moved(w, r),
{
}

/// The fast-pace alert fires at most once in a window while the pace stays
/// above the calm level: after it fires, a reading of the same window that is
/// not calm does not fire it again.
pub proof fn lemma_pace_alert_once_per_window(
    a: PaceAlert,
    resets_at: Option<i64>,
    first: PaceReading,
    second: PaceReading,
)
    requires
        pace_fires(a, resets_at, Some(first)),
        !second.calm,
    ensures
        !pace_fires(pace_after(a, resets_at, Some(first)), resets_at, Some(second)),
{
}

/// The fast-pace alert fires again once the pace has calmed down in between.
pub proof fn lemma_pace_alert_rearms_after_calm(
    a: PaceAlert,
    resets_at: Option<i64>,
    calm: PaceReading,
    fast: PaceReading,
)
    requires
        calm.calm,
        !calm.fast,
        fast.fast,
    ensures
        pace_fires(pace_after(a, resets_at, Some(calm)), resets_at, Some(fast)),
{
}

} // verus!
