//! Creation and update times on rows, in milliseconds since the Unix epoch.

use vstd::prelude::*;

verus! {

/// When a record was first created and last written.
#[derive(Clone, Copy, Debug, PartialEq, Eq, Structural, Hash)]
pub struct Timestamp {
    pub created_at: i64,
    pub updated_at: i64,
}

impl Timestamp {
    /// Both fields stamped with the same instant, as on a first version.
    pub fn assigned(now_ms: i64) -> (t: Timestamp)
        ensures
            t == (Timestamp { created_at: now_ms, updated_at: now_ms }),
    {
        Timestamp { created_at: now_ms, updated_at: now_ms }
    }

    /// A first-version stamp read from the wall clock.
    pub fn now() -> (t: Timestamp)
        ensures
            t.created_at == t.updated_at,
    {
        let ms = now_millis();
        Timestamp::assigned(ms)
    }

    /// The creation instant carried forward, the update instant refreshed.
    pub fn refreshed(&self, now_ms: i64) -> (t: Timestamp)
        ensures
            t == (Timestamp { created_at: self.created_at, updated_at: now_ms }),
    {
        Timestamp { created_at: self.created_at, updated_at: now_ms }
    }
}

/// Relies on `chrono::Utc::now` and `chrono::DateTime::timestamp_millis`:
/// the wall clock, read once, as milliseconds since the Unix epoch. Nothing
/// is assumed of the value; callers must hold for every reading. Note that
/// `Utc::now` itself panics on a machine whose clock is set before the
/// Unix epoch; no input of this function can avoid or cause that.
#[verifier::external_body]
pub(crate) fn now_millis() -> i64 {
    chrono::Utc::now().timestamp_millis()
}

} // verus!
