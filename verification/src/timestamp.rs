use vstd::prelude::*;

verus! {

/// An instant tagged as UTC: whole seconds since the Unix epoch and the
/// nanoseconds into that second.
#[derive(Debug, Clone, Copy, PartialEq, Eq, Structural)]
pub struct Timestamp {
    pub secs: i64,
    pub nanos: u32,
}

/// The same instant as a stored row keeps it: without a time zone tag, UTC
/// being implied.
#[derive(Debug, Clone, Copy, PartialEq, Eq, Structural)]
pub struct NaiveTimestamp {
    pub secs: i64,
    pub nanos: u32,
}

impl Timestamp {
    /// The instant with its tag taken off.
    pub open spec fn spec_naive_utc(self) -> NaiveTimestamp {
        NaiveTimestamp { secs: self.secs, nanos: self.nanos }
    }

    /// Takes the UTC tag off; seconds and nanoseconds stay as they are.
    pub fn naive_utc(&self) -> (naive: NaiveTimestamp)
        ensures
            naive == self.spec_naive_utc(),
    {
        NaiveTimestamp { secs: self.secs, nanos: self.nanos }
    }

    /// Puts the UTC tag back on a stored instant.
    pub fn from_utc_datetime(naive: &NaiveTimestamp) -> (tagged: Timestamp)
        ensures
            tagged == naive.spec_and_utc(),
    {
        Timestamp { secs: naive.secs, nanos: naive.nanos }
    }
}

impl NaiveTimestamp {
    /// The instant with the UTC tag put on.
    pub open spec fn spec_and_utc(self) -> Timestamp {
        Timestamp { secs: self.secs, nanos: self.nanos }
    }
}

/// Reads the clock with `chrono::Utc::now` and splits the instant with
/// `timestamp` and `timestamp_subsec_nanos`. The clock's reading is not
/// described; the claim is only that it is not before the epoch and that the
/// nanoseconds stay below one second.
#[verifier::external_body]
pub(crate) fn current_time() -> (now: Timestamp)
    ensures
        now.secs >= 0,
        now.nanos < 1_000_000_000,
{
    let now = chrono::Utc::now();
    Timestamp { secs: now.timestamp(), nanos: now.timestamp_subsec_nanos() }
}

/// Tagging and untagging undo each other, in both orders.
pub proof fn lemma_tag_round_trip(tagged: Timestamp, naive: NaiveTimestamp)
    ensures
        tagged.spec_naive_utc().spec_and_utc() == tagged,
        naive.spec_and_utc().spec_naive_utc() == naive,
{
}

} // verus!
