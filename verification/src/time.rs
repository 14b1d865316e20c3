//! Instants: what a timestamp of the shell and a date of a document hold.

use vstd::prelude::*;

verus! {

/// Whether the calendar of `chrono` reaches the second that lies `secs`
/// seconds after the Unix epoch: whether
/// `chrono::DateTime::from_timestamp(secs, 0)` is `Some`.
pub uninterp spec fn chrono_has_second(secs: int) -> bool;

/// The instant that `bson::DateTime::to_chrono` gives for `millis`
/// milliseconds after the Unix epoch, as whole seconds after the epoch and
/// nanoseconds into that second.
pub uninterp spec fn chrono_instant(millis: int) -> (int, int);

/// Whether `chrono` can hold the instant `nanos` nanoseconds into the second
/// `secs`. Beyond the calendar's reach nothing is held; a count of a billion
/// nanoseconds or more marks a leap second, which only the last second of a
/// minute can carry.
pub open spec fn representable(secs: int, nanos: int) -> bool {
    chrono_has_second(secs) && fits_second(secs, nanos)
}

/// Whether a second can carry `nanos` nanoseconds: under a billion in any
/// second, under two billion in the last second of a minute.
pub open spec fn fits_second(secs: int, nanos: int) -> bool {
    &&& 0 <= nanos < 2_000_000_000
    &&& (nanos >= 1_000_000_000 ==> (secs % 86_400) % 60 == 59)
}

/// The milliseconds after the Unix epoch of an instant, with what is finer
/// than a millisecond cut off.
pub open spec fn millis_of(secs: int, nanos: int) -> int {
    secs * 1000 + nanos / 1_000_000
}

/// The instant that a count of milliseconds stands for: the one at that
/// millisecond where `chrono` reaches it, and else what
/// `bson::DateTime::to_chrono` falls back to.
pub open spec fn instant_of_millis(millis: int) -> (int, int) {
    if chrono_has_second(millis / 1000) {
        (millis / 1000, (millis % 1000) * 1_000_000)
    } else {
        chrono_instant(millis)
    }
}

/// Builds the instant with `chrono::DateTime::from_timestamp` and reads its
/// milliseconds through `bson::DateTime::from_chrono`. Trusted: the instant
/// exists exactly when it is representable, and its milliseconds are the
/// seconds times a thousand plus the whole milliseconds of the nanoseconds.
#[verifier::external_body]
fn instant_to_millis(secs: i64, nanos: u32) -> (r: Option<i64>)
    ensures
        r is Some <==> (chrono_has_second(secs as int) && fits_second(secs as int, nanos as int)),
        r matches Some(ms) ==> ms == millis_of(secs as int, nanos as int),
{
    match chrono::DateTime::from_timestamp(secs, nanos) {
        Some(at) => Some(bson::DateTime::from_chrono(at).timestamp_millis()),
        None => None,
    }
}

/// Reads a count of milliseconds with `bson::DateTime::to_chrono`. Trusted:
/// the result is always an instant that `chrono` holds; where the
/// millisecond itself is one, it is that instant, and otherwise `chrono`'s
/// earliest or latest.
#[verifier::external_body]
fn millis_to_instant(millis: i64) -> (r: (i64, u32))
    ensures
        (r.0 as int, r.1 as int) == chrono_instant(millis as int),
        representable(r.0 as int, r.1 as int),
        chrono_has_second(millis / 1000) ==> (r.0 == millis / 1000 && r.1 == (millis % 1000)
            * 1_000_000),
{
    let at = bson::DateTime::from_millis(millis).to_chrono();
    (at.timestamp(), at.timestamp_subsec_nanos())
}

/// An instant on the UTC time line, as the shell holds it: whole seconds
/// after the Unix epoch and nanoseconds into the second. Every value is an
/// instant that `chrono` can hold.
#[derive(Clone, Copy, Debug, PartialEq, Eq)]
pub struct Timestamp {
    secs: i64,
    nanos: u32,
}

impl Timestamp {
    #[verifier::type_invariant]
    spec fn held(self) -> bool {
        representable(self.secs as int, self.nanos as int)
    }

    /// Whole seconds after the Unix epoch.
    pub closed spec fn secs(self) -> int {
        self.secs as int
    }

    /// Nanoseconds into the second.
    pub closed spec fn nanos(self) -> int {
        self.nanos as int
    }

    /// What every instant in use satisfies.
    pub open spec fn wf(self) -> bool {
        representable(self.secs(), self.nanos())
    }

    /// Milliseconds after the Unix epoch, cut off at the millisecond.
    pub open spec fn to_millis(self) -> int {
        millis_of(self.secs(), self.nanos())
    }

    /// The instant `nanos` nanoseconds into the second `secs`, if `chrono`
    /// can hold it.
    pub fn new(secs: i64, nanos: u32) -> (r: Option<Timestamp>)
        ensures
            r is Some <==> representable(secs as int, nanos as int),
            r matches Some(t) ==> t.secs() == secs && t.nanos() == nanos && t.wf(),
    {
        match instant_to_millis(secs, nanos) {
            Some(_) => Some(Timestamp { secs, nanos }),
            None => None,
        }
    }

    /// The instant that a document's date of `millis` milliseconds stands
    /// for in the shell.
    pub fn from_millis(millis: i64) -> (t: Timestamp)
        ensures
            (t.secs(), t.nanos()) == instant_of_millis(millis as int),
            t.wf(),
    {
        let (secs, nanos) = millis_to_instant(millis);
        Timestamp { secs, nanos }
    }

    /// Milliseconds after the Unix epoch, as a document's date holds them.
    pub fn millis(&self) -> (ms: i64)
        ensures
            ms == self.to_millis(),
            self.wf(),
    {
        proof {
            use_type_invariant(self);
        }
        match instant_to_millis(self.secs, self.nanos) {
            Some(ms) => ms,
            // Never taken: every timestamp is an instant that `chrono` holds.
            None => 0,
        }
    }

    /// Whole seconds after the Unix epoch.
    pub fn seconds(&self) -> (s: i64)
        ensures
            s == self.secs(),
    {
        self.secs
    }

    /// Nanoseconds into the second.
    pub fn subsec_nanos(&self) -> (n: u32)
        ensures
            n == self.nanos(),
    {
        self.nanos
    }
}

} // verus!
