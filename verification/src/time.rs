//! Timer deadlines on the runtime's monotonic clock.
//!
//! A clock reading is the number of nanoseconds elapsed since the clock's
//! origin; a `Sleep` remembers the reading at which it completes.
use vstd::prelude::*;

verus! {

/// A timer that completes once the clock has reached its deadline.
pub struct Sleep {
    deadline: u128,
}

impl View for Sleep {
    type V = nat;

    /// The deadline, in nanoseconds on the runtime clock.
    closed spec fn view(&self) -> nat {
        self.deadline as nat
    }
}

/// Whether a timer with deadline `deadline` has completed at clock reading `now`.
pub open spec fn elapsed_at(deadline: nat, now: nat) -> bool {
    now >= deadline
}

/// What is still to wait at clock reading `now` for a timer with deadline
/// `deadline`: the difference, or zero once the deadline has passed.
pub open spec fn remaining_at(deadline: nat, now: nat) -> nat {
    if now >= deadline { 0 } else { (deadline - now) as nat }
}

/// Starts a timer at clock reading `now` that completes `duration`
/// nanoseconds later.
///
/// `clock_holds_deadline` is the clock's own answer to whether the instant
/// `duration` after now can be represented. A deadline the clock cannot
/// hold is refused: the result is `None` exactly when the clock says so, or
/// when the deadline does not fit a reading.
pub fn sleep(now: u128, duration: u128, clock_holds_deadline: bool) -> (s: Option<Sleep>)
    ensures
        match s {
            Some(t) => {
                &&& clock_holds_deadline
                &&& now + duration <= u128::MAX
                &&& t@ == now + duration
            },
            None => !clock_holds_deadline || now + duration > u128::MAX,
        },
{
    if !clock_holds_deadline {
        return None;
    }
    match now.checked_add(duration) {
        Some(deadline) => Some(Sleep { deadline }),
        None => None,
    }
}

impl Sleep {
    /// The clock reading at which this timer completes.
    pub fn deadline(&self) -> (d: u128)
        ensures
            d == self@,
    {
        self.deadline
    }

    /// Whether the timer has completed at clock reading `now`.
    pub fn has_elapsed(&self, now: u128) -> (done: bool)
        ensures
            done == elapsed_at(self@, now as nat),
    {
        now >= self.deadline
    }

    /// One poll of the timer.
    ///
    /// The clock is read through `clock`; if the deadline has been reached,
    /// the timer is done, `wake_after` is not called and is handed back.
    /// Otherwise the clock is read again, `wake_after` is called once, to
    /// wake the task when what remains at that second reading has passed,
    /// and the timer stays pending.
    pub fn poll<C, W>(&self, clock: C, wake_after: W) -> (res: (bool, Option<W>))
        where
            C: Fn() -> u128,
            W: FnOnce(u128),
        requires
            clock.requires(()),
            forall|rest: u128| wake_after.requires((rest,)),
        ensures
            res.0 ==> res.1 == Some(wake_after),
            !res.0 ==> res.1 is None,
            exists|first: u128|
                {
                    &&& #[trigger] clock.ensures((), first)
                    &&& res.0 == elapsed_at(self@, first as nat)
                    &&& !res.0 ==> exists|second: u128|
                        {
                            &&& #[trigger] clock.ensures((), second)
                            &&& wake_after.ensures((remaining_at(self@, second as nat) as u128,), ())
                        }
                },
    {
        let first = clock();
        if self.has_elapsed(first) {
            (true, Some(wake_after))
        } else {
            let second = clock();
            let rest = self.remaining(second);
            wake_after(rest);
            (false, None)
        }
    }

    /// How long is still to wait at clock reading `now` (zero once elapsed).
    pub fn remaining(&self, now: u128) -> (rest: u128)
        ensures
            rest == remaining_at(self@, now as nat),
    {
        if now >= self.deadline {
            0
        } else {
            self.deadline - now
        }
    }
}

/// A timer started at `now` for `duration` has completed at a later reading
/// exactly when that reading is at least `now + duration`; in particular a
/// timer of zero duration has completed at the moment it starts.
pub proof fn law_sleep_lasts_its_duration(now: nat, duration: nat, later: nat)
    ensures
        elapsed_at(now + duration, later) <==> later >= now + duration,
        elapsed_at(now + 0, now),
{
}

/// Once a timer has completed it stays completed at every later reading.
pub proof fn law_elapsed_is_permanent(deadline: nat, t1: nat, t2: nat)
    requires
        elapsed_at(deadline, t1),
        t1 <= t2,
    ensures
        elapsed_at(deadline, t2),
{
}

/// Nothing is left to wait exactly when the timer has completed.
pub proof fn law_nothing_remains_once_elapsed(deadline: nat, now: nat)
    ensures
        remaining_at(deadline, now) == 0 <==> elapsed_at(deadline, now),
{
}

/// A pending timer completes after waiting what `remaining` reports, and not
/// before: waiting any shorter time leaves it pending.
pub proof fn law_remaining_is_exact(deadline: nat, now: nat, shorter: nat)
    requires
        !elapsed_at(deadline, now),
        shorter < remaining_at(deadline, now),
    ensures
        elapsed_at(deadline, now + remaining_at(deadline, now)),
        !elapsed_at(deadline, now + shorter),
{
}

} // verus!
