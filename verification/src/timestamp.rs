//! Points in time, held as UNIX seconds and nanoseconds and printed in
//! RFC 3339 by the `chrono` crate.

use vstd::prelude::*;

verus! {

/// What `chrono::DateTime::<Utc>::from_timestamp(secs, nanos)` followed by
/// `to_rfc3339` gives: `None` when chrono cannot represent the instant.
pub uninterp spec fn spec_rfc3339(secs: i64, nanos: u32) -> Option<Seq<char>>;

/// `chrono::DateTime::<Utc>::from_timestamp(secs, nanos)` printed with
/// `to_rfc3339`; `None` exactly when `from_timestamp` returns `None`. The
/// text is never empty: `to_rfc3339` always writes the date, the time and
/// the offset.
#[verifier::external_body]
fn format_rfc3339(secs: i64, nanos: u32) -> (r: Option<String>)
    ensures
        r is Some <==> spec_rfc3339(secs, nanos) is Some,
        r matches Some(s) ==> spec_rfc3339(secs, nanos) == Some(s@) && s@.len() > 0,
{
    chrono::DateTime::from_timestamp(secs, nanos).map(|d| d.to_rfc3339())
}

/// `chrono::Utc::now()` as UNIX seconds and the sub-second nanoseconds.
/// The value depends on the clock; what holds of every reading is that
/// chrono can represent it again: `DateTime::from_timestamp` is documented
/// to round-trip `timestamp` and `timestamp_subsec_nanos`.
#[verifier::external_body]
pub(crate) fn current_unix_time() -> (r: (i64, u32))
    ensures
        spec_rfc3339(r.0, r.1) is Some,
{
    let now = chrono::Utc::now();
    (now.timestamp(), now.timestamp_subsec_nanos())
}

/// An instant that chrono can represent.
#[derive(Debug)]
pub struct Timestamp {
    secs: i64,
    nanos: u32,
}

impl Timestamp {
    #[verifier::type_invariant]
    spec fn representable(self) -> bool {
        spec_rfc3339(self.secs, self.nanos) is Some
    }

    /// Seconds since the UNIX epoch.
    pub closed spec fn spec_secs(&self) -> i64 {
        self.secs
    }

    /// Nanoseconds within the second.
    pub closed spec fn spec_nanos(&self) -> u32 {
        self.nanos
    }

    /// The RFC 3339 text of this instant.
    pub open spec fn spec_text(&self) -> Seq<char> {
        spec_rfc3339(self.spec_secs(), self.spec_nanos()).unwrap()
    }

    /// The instant `secs` seconds and `nanos` nanoseconds after the epoch,
    /// when chrono can represent it.
    pub fn from_unix(secs: i64, nanos: u32) -> (r: Option<Timestamp>)
        ensures
            r is Some <==> spec_rfc3339(secs, nanos) is Some,
            r matches Some(t) ==> t.spec_secs() == secs && t.spec_nanos() == nanos,
    {
        match format_rfc3339(secs, nanos) {
            Some(_) => Some(Timestamp { secs, nanos }),
            None => None,
        }
    }

    /// The current instant (`chrono::Utc::now()`).
    pub fn now() -> (r: Timestamp) {
        let (secs, nanos) = current_unix_time();
        Timestamp { secs, nanos }
    }

    /// Seconds since the UNIX epoch.
    pub fn secs(&self) -> (r: i64)
        ensures
            r == self.spec_secs(),
    {
        self.secs
    }

    /// Nanoseconds within the second.
    pub fn nanos(&self) -> (r: u32)
        ensures
            r == self.spec_nanos(),
    {
        self.nanos
    }

    /// The instant in RFC 3339 (`DateTime::to_rfc3339`).
    pub fn to_rfc3339(&self) -> (r: String)
        ensures
            spec_rfc3339(self.spec_secs(), self.spec_nanos()) == Some(r@),
            r@ == self.spec_text(),
            r@.len() > 0,
    {
        proof {
            use_type_invariant(self);
        }
        match format_rfc3339(self.secs, self.nanos) {
            Some(s) => s,
            None => {
                assert(false);
                String::new()
            },
        }
    }

    /// The same instant.
    pub fn copy(&self) -> (r: Timestamp)
        ensures
            r.spec_secs() == self.spec_secs(),
            r.spec_nanos() == self.spec_nanos(),
    {
        proof {
            use_type_invariant(self);
        }
        Timestamp { secs: self.secs, nanos: self.nanos }
    }
}

} // verus!
