//! The thresholds that decide when a key version is superseded and when a
//! retired version expires. Nothing runs in the background: the thresholds
//! are looked at when a key is used.

use vstd::prelude::*;

verus! {

/// Thresholds for one key identity. Times are in seconds.
#[derive(Debug, Clone, Copy, PartialEq, Eq)]
pub struct RotationPolicy {
    /// The active version is superseded once it is older than this. `None`:
    /// age never forces a rotation. Default: 90 days.
    pub max_age: Option<u64>,
    /// The active version is superseded once it has been handed out this
    /// many times. `None`: use never forces a rotation. Default: `None`.
    pub max_uses: Option<u64>,
    /// A retired version expires once it is older than this. Default: 365
    /// days.
    pub retention: u64,
}

impl Default for RotationPolicy {
    fn default() -> (policy: RotationPolicy)
        ensures
            policy.max_age == Some(7776000u64),
            policy.max_uses == None::<u64>,
            policy.retention == 31536000,
    {
        RotationPolicy { max_age: Some(7776000), max_uses: None, retention: 31536000 }
    }
}

/// The age at `now` of something made at `created_at`: zero where the clock
/// has gone backwards.
pub open spec fn age_spec(created_at: u64, now: u64) -> u64 {
    if now >= created_at {
        (now - created_at) as u64
    } else {
        0
    }
}

/// The age at `now` of something made at `created_at`.
pub fn age(created_at: u64, now: u64) -> (age: u64)
    ensures
        age == age_spec(created_at, now),
{
    if now >= created_at {
        now - created_at
    } else {
        0
    }
}

impl RotationPolicy {
    /// Whether an active version made at `created_at` and handed out `uses`
    /// times must be superseded at `now`: it is older than `max_age`, or it
    /// has reached `max_uses`.
    pub open spec fn is_due_spec(&self, created_at: u64, uses: u64, now: u64) -> bool {
        ||| (self.max_age matches Some(limit) && age_spec(created_at, now) > limit)
        ||| (self.max_uses matches Some(limit) && uses >= limit)
    }

    /// Whether a retired version made at `created_at` has expired at `now`:
    /// it is older than `retention`.
    pub open spec fn is_overdue_spec(&self, created_at: u64, now: u64) -> bool {
        age_spec(created_at, now) > self.retention
    }

    /// Whether an active version must be superseded at `now`.
    pub fn is_due(&self, created_at: u64, uses: u64, now: u64) -> (due: bool)
        ensures
            due == self.is_due_spec(created_at, uses, now),
    {
        let by_age = match self.max_age {
            Some(limit) => age(created_at, now) > limit,
            None => false,
        };
        let by_use = match self.max_uses {
            Some(limit) => uses >= limit,
            None => false,
        };
        by_age || by_use
    }

    /// Whether a retired version has expired at `now`.
    pub fn is_overdue(&self, created_at: u64, now: u64) -> (overdue: bool)
        ensures
            overdue == self.is_overdue_spec(created_at, now),
    {
        age(created_at, now) > self.retention
    }
}

} // verus!
