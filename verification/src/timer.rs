//! Deadline timer controller.
//!
//! Models the one-shot hardware countdown timer that schedules the next
//! protocol step: a compare register holding at most one future deadline and
//! a latched compare event ("interrupt pending"). Reprogramming always
//! overwrites the previous deadline and clears any stale latched event, so a
//! deadline that was superseded can never fire the handler.

use vstd::prelude::*;

verus! {

/// Widest span the hardware counter can represent: a 32-bit compare register
/// counting microseconds at 1 MHz.
pub const MAX_TIMER_SPAN_MICROS: u64 = 0xffff_ffff;

/// Error returned when a requested deadline cannot be programmed.
#[derive(Clone, Copy, Debug, PartialEq, Eq, Structural)]
pub enum TimerError {
    /// The deadline lies further in the future than the counter can count.
    DeadlineOverflow,
}

/// The deadline timer: at most one armed deadline (absolute microseconds)
/// and a latched compare event.
pub struct DeadlineTimer {
    compare: Option<u64>,
    event: bool,
}

impl DeadlineTimer {
    /// The armed deadline, if any, in absolute microseconds.
    pub closed spec fn armed_deadline(self) -> Option<u64> {
        self.compare
    }

    /// Whether a compare event is latched and the timer interrupt pending.
    pub closed spec fn event_pending(self) -> bool {
        self.event
    }

    /// A deadline `d` is programmable from `now` when its distance fits the
    /// counter width. Deadlines at or before `now` are programmable and fire
    /// on the next poll.
    pub open spec fn spec_programmable(now: u64, d: u64) -> bool {
        d - now <= MAX_TIMER_SPAN_MICROS
    }

    /// Whether the armed deadline has been reached at time `t`, i.e. polling
    /// the hardware at `t` latches the compare event.
    pub open spec fn fires_by(self, t: u64) -> bool {
        self.armed_deadline() matches Some(d) && d <= t
    }

    /// A fresh timer: disarmed, no event latched.
    pub fn new() -> (timer: DeadlineTimer)
        ensures
            timer.armed_deadline() is None,
            !timer.event_pending(),
    {
        DeadlineTimer { compare: None, event: false }
    }

    /// Reprogram the timer for the given deadline, or disarm it entirely.
    ///
    /// A pending event from a previous deadline is cleared before rearming,
    /// so a stale firing cannot reach the handler. A deadline further from
    /// `now` than the counter width is rejected and the timer is untouched.
    pub fn reprogram(&mut self, now: u64, deadline: Option<u64>) -> (r: Result<(), TimerError>)
        ensures
            r is Ok <==> (deadline matches Some(d) ==> Self::spec_programmable(now, d)),
            r is Ok ==> final(self).armed_deadline() == deadline,
            r is Ok ==> !final(self).event_pending(),
            r is Err ==> *final(self) == *old(self) && r == Err::<(), TimerError>(
                TimerError::DeadlineOverflow,
            ),
    {
        match deadline {
            None => {
                self.event = false;
                self.compare = None;
                Ok(())
            },
            Some(d) => {
                if d > now && d - now > MAX_TIMER_SPAN_MICROS {
                    Err(TimerError::DeadlineOverflow)
                } else {
                    self.event = false;
                    self.compare = Some(d);
                    Ok(())
                }
            },
        }
    }

    /// The hardware counter reaching time `now`: if the armed deadline has
    /// been reached the compare event is latched and the one-shot deadline is
    /// consumed. An already latched event stays latched until taken.
    pub fn poll_hw(&mut self, now: u64)
        ensures
            final(self).event_pending() == (old(self).event_pending() || old(self).fires_by(now)),
            final(self).armed_deadline() == (if old(self).fires_by(now) {
                None
            } else {
                old(self).armed_deadline()
            }),
    {
        match self.compare {
            Some(d) => {
                if d <= now {
                    self.event = true;
                    self.compare = None;
                }
            },
            None => {},
        }
    }

    /// The timer-event handler's guard: report whether the expected compare
    /// event actually occurred, and clear it. A spurious interrupt (no event
    /// latched) is reported as `false` so the handler can return untouched.
    pub fn take_event(&mut self) -> (fired: bool)
        ensures
            fired == old(self).event_pending(),
            !final(self).event_pending(),
            final(self).armed_deadline() == old(self).armed_deadline(),
    {
        let fired = self.event;
        self.event = false;
        fired
    }
}

/// Deadline monotonicity: in the state every accepted reprogram call leaves
/// behind (armed for the new deadline, no latched event), whether the timer
/// fires by time `t` is decided by the last deadline alone; no deadline or
/// latched event from before that call can cause a firing.
pub proof fn lemma_last_deadline_decides(timer: DeadlineTimer, d_last: u64, t: u64)
    requires
        timer.armed_deadline() == Some(d_last),
        !timer.event_pending(),
    ensures
        timer.fires_by(t) <==> d_last <= t,
{
}

/// A one-shot deadline fires at most once: once the compare event has been
/// latched the timer is disarmed, and a disarmed timer never fires again
/// until it is reprogrammed.
pub proof fn lemma_fires_at_most_once(timer: DeadlineTimer, t: u64)
    requires
        timer.armed_deadline() is None,
    ensures
        !timer.fires_by(t),
{
}

} // verus!
