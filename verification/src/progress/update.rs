//! How often progress is shown: every few iterations or every so much time.

use vstd::prelude::*;

verus! {

/// Decides how often progress is updated: every `n` iterations, or when at
/// least the given number of nanoseconds has passed since the last update.
///
/// The default is every 100 ms.
#[derive(Debug, Clone, Copy, PartialEq, Eq, Structural)]
pub enum UpdatePolicy {
    Iterations(usize),
    Time(u64),
}

impl Default for UpdatePolicy {
    fn default() -> (p: Self)
        ensures
            p == UpdatePolicy::Time(100_000_000),
    {
        UpdatePolicy::Time(100_000_000)
    }
}

/// The state that decides when the next update comes. Times are monotonic
/// clock readings in nanoseconds.
#[derive(Debug, Clone, Copy, PartialEq, Eq, Structural)]
pub enum Update {
    /// Updates every `every` iterations; `remain` calls are left until the
    /// next one.
    Iterations { every: usize, remain: usize },
    /// Updates when `every` nanoseconds have passed since `last`.
    Time { every: u64, last: u64 },
}

/// The state right after an update or a start at time `now`.
pub open spec fn fresh(policy: UpdatePolicy, now: u64) -> Update {
    match policy {
        UpdatePolicy::Iterations(every) => Update::Iterations { every, remain: every },
        UpdatePolicy::Time(every) => Update::Time { every, last: now },
    }
}

/// The state after a reset at time `now`.
pub open spec fn reset_at(u: Update, now: u64) -> Update {
    match u {
        Update::Iterations { every, remain } => Update::Iterations { every, remain: every },
        Update::Time { every, last } => Update::Time { every, last: now },
    }
}

/// Time passed from `last` to `now`, zero when the clock went back.
pub open spec fn elapsed(last: u64, now: u64) -> nat {
    if now >= last {
        (now - last) as nat
    } else {
        0
    }
}

/// Asked at time `now` whether to update: the new state, and `Some(now)`
/// when the update is due.
pub open spec fn should_step(u: Update, now: u64) -> (Update, Option<u64>) {
    match u {
        Update::Iterations { every, remain } => if remain <= 1 {
            (Update::Iterations { every, remain: every }, Some(now))
        } else {
            (Update::Iterations { every, remain: (remain - 1) as usize }, None)
        },
        Update::Time { every, last } => if elapsed(last, now) >= every {
            (Update::Time { every, last: now }, Some(now))
        } else {
            (u, None)
        },
    }
}

/// The state after `k` questions asked at time `now`.
pub open spec fn after_questions(u: Update, now: u64, k: nat) -> Update
    decreases k,
{
    if k == 0 {
        u
    } else {
        should_step(after_questions(u, now, (k - 1) as nat), now).0
    }
}

impl Update {
    /// The state at the start, at time `now`.
    pub fn new(policy: UpdatePolicy, now: u64) -> (u: Self)
        ensures
            u == fresh(policy, now),
    {
        match policy {
            UpdatePolicy::Iterations(every) => Update::Iterations { every, remain: every },
            UpdatePolicy::Time(every) => Update::Time { every, last: now },
        }
    }

    /// Starts counting again, at time `now`.
    pub fn reset(&mut self, now: u64)
        ensures
            *final(self) == reset_at(*old(self), now),
    {
        match self {
            Update::Iterations { every, remain } => *remain = *every,
            Update::Time { last, .. } => *last = now,
        }
    }

    /// Whether an update is due at time `now`; `Some(now)` when it is.
    pub fn should(&mut self, now: u64) -> (r: Option<u64>)
        ensures
            (*final(self), r) == should_step(*old(self), now),
    {
        match self {
            Update::Iterations { every, remain } => {
                if *remain <= 1 {
                    *remain = *every;
                    Some(now)
                } else {
                    *remain = *remain - 1;
                    None
                }
            },
            Update::Time { every, last } => {
                let passed = if now >= *last { now - *last } else { 0 };
                if passed >= *every {
                    *last = now;
                    Some(now)
                } else {
                    None
                }
            },
        }
    }
}

/// With an iteration policy of `every` (at least one), updates come exactly
/// at every `every`-th question: the questions before it give none, that one
/// gives one and starts the count again.
pub proof fn lemma_iterations_period(every: usize, now: u64, k: nat)
    requires
        1 <= k <= every,
    ensures
        after_questions(fresh(UpdatePolicy::Iterations(every), now), now, (k - 1) as nat)
            == (Update::Iterations { every, remain: (every - (k - 1)) as usize }),
        should_step(
            after_questions(fresh(UpdatePolicy::Iterations(every), now), now, (k - 1) as nat),
            now,
        ).1 is Some <==> k == every,
        k == every ==> should_step(
            after_questions(fresh(UpdatePolicy::Iterations(every), now), now, (k - 1) as nat),
            now,
        ).0 == fresh(UpdatePolicy::Iterations(every), now),
    decreases k,
{
    if k > 1 {
        lemma_iterations_period(every, now, (k - 1) as nat);
    }
}

/// With a time policy, an update is due exactly when the interval has passed
/// since the last one, and then the interval starts again at that moment.
pub proof fn lemma_time_period(every: u64, last: u64, now: u64)
    ensures
        should_step(Update::Time { every, last }, now).1 is Some <==> elapsed(last, now) >= every,
        should_step(Update::Time { every, last }, now).1 is Some ==> should_step(
            Update::Time { every, last },
            now,
        ).0 == fresh(UpdatePolicy::Time(every), now),
{
}

} // verus!
