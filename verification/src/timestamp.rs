//! Instants reported by AWS, and how they are written into JSON.
//!
//! An instant is a count of seconds since the Unix epoch with a sub-second
//! part. Its text is what `aws_smithy_types::DateTime` renders.
use crate::json::{with_opt, JsonObject, JsonValue, JsonView};
use vstd::prelude::*;

verus! {

/// Nanoseconds in one second.
pub const NANOS_PER_SECOND: u32 = 1_000_000_000;

/// First second of 0001-01-01T00:00:00Z.
pub const RFC3339_MIN_SECONDS: i64 = -62_135_596_800;

/// Last second of 9999-12-31T23:59:59Z.
pub const RFC3339_MAX_SECONDS: i64 = 253_402_300_799;

/// An instant: seconds since the Unix epoch and the nanoseconds past that second.
pub struct Timestamp {
    seconds: i64,
    subsecond_nanos: u32,
}

impl Timestamp {
    #[verifier::type_invariant]
    spec fn well_formed(self) -> bool {
        self.subsecond_nanos < NANOS_PER_SECOND
    }

    pub closed spec fn spec_seconds(self) -> i64 {
        self.seconds
    }

    pub closed spec fn spec_subsecond_nanos(self) -> u32 {
        self.subsecond_nanos
    }

    /// The instant `seconds` past the epoch plus `subsecond_nanos` nanoseconds.
    pub fn from_secs_and_nanos(seconds: i64, subsecond_nanos: u32) -> (t: Timestamp)
        requires
            subsecond_nanos < NANOS_PER_SECOND,
        ensures
            t.spec_seconds() == seconds,
            t.spec_subsecond_nanos() == subsecond_nanos,
    {
        Timestamp { seconds, subsecond_nanos }
    }

    /// Whole seconds since the epoch.
    pub fn secs(&self) -> (s: i64)
        ensures
            s == self.spec_seconds(),
    {
        self.seconds
    }

    /// Nanoseconds past the whole second.
    pub fn subsec_nanos(&self) -> (n: u32)
        ensures
            n == self.spec_subsecond_nanos(),
            n < NANOS_PER_SECOND,
    {
        proof {
            use_type_invariant(self);
        }
        self.subsecond_nanos
    }

    /// The instant's text as `Display` renders it.
    pub fn display_text(&self) -> (s: String)
        ensures
            s@ == smithy_display_text(self.spec_seconds(), self.spec_subsecond_nanos()),
    {
        proof {
            use_type_invariant(self);
        }
        smithy_display(self.seconds, self.subsecond_nanos)
    }

    /// The instant's RFC 3339 text, or the empty string where RFC 3339 cannot
    /// write it (a year outside 1 to 9999).
    pub fn rfc3339_or_empty(&self) -> (s: String)
        ensures
            s@ == rfc3339_or_empty_text(self.spec_seconds(), self.spec_subsecond_nanos()),
            s@.len() == 0 <==> !(RFC3339_MIN_SECONDS <= self.spec_seconds() <= RFC3339_MAX_SECONDS),
    {
        proof {
            use_type_invariant(self);
        }
        match smithy_rfc3339(self.seconds, self.subsecond_nanos) {
            Some(s) => s,
            None => String::new(),
        }
    }
}

/// What `aws_smithy_types::DateTime`'s `Display` writes for an instant.
pub uninterp spec fn smithy_display_text(seconds: i64, subsecond_nanos: u32) -> Seq<char>;

/// What `aws_smithy_types::DateTime::fmt(Format::DateTime)` writes for an instant,
/// or `None` where it fails.
pub uninterp spec fn smithy_rfc3339_text(seconds: i64, subsecond_nanos: u32) -> Option<Seq<char>>;

/// The RFC 3339 text of an instant, with the empty string where there is none.
pub open spec fn rfc3339_or_empty_text(seconds: i64, subsecond_nanos: u32) -> Seq<char> {
    match smithy_rfc3339_text(seconds, subsecond_nanos) {
        Some(t) => t,
        None => Seq::empty(),
    }
}

/// Renders an instant with `aws_smithy_types::DateTime`'s `Display`, which
/// writes the RFC 3339 text when `fmt(Format::DateTime)` succeeds and the epoch
/// seconds otherwise. Claimed: the text is a function of the instant, and it is
/// the RFC 3339 text whenever that exists.
#[verifier::external_body]
fn smithy_display(seconds: i64, subsecond_nanos: u32) -> (s: String)
    requires
        subsecond_nanos < NANOS_PER_SECOND,
    ensures
        s@ == smithy_display_text(seconds, subsecond_nanos),
        smithy_rfc3339_text(seconds, subsecond_nanos) matches Some(t) ==> s@ == t,
{
    aws_smithy_types::DateTime::from_secs_and_nanos(seconds, subsecond_nanos).to_string()
}

/// Renders an instant with `aws_smithy_types::DateTime::fmt(Format::DateTime)`.
/// Claimed: the result is a function of the instant; it fails exactly for the
/// instants whose year lies outside 1 to 9999 (the check in its RFC 3339
/// formatter), and otherwise it is not empty (it ends in `Z`).
#[verifier::external_body]
fn smithy_rfc3339(seconds: i64, subsecond_nanos: u32) -> (r: Option<String>)
    requires
        subsecond_nanos < NANOS_PER_SECOND,
    ensures
        r matches Some(s) ==> smithy_rfc3339_text(seconds, subsecond_nanos) == Some(s@),
        r is None ==> smithy_rfc3339_text(seconds, subsecond_nanos) is None,
        r is Some <==> RFC3339_MIN_SECONDS <= seconds <= RFC3339_MAX_SECONDS,
        r matches Some(s) ==> s@.len() > 0,
{
    aws_smithy_types::DateTime::from_secs_and_nanos(seconds, subsecond_nanos).fmt(
        aws_smithy_types::date_time::Format::DateTime,
    ).ok()
}

/// The JSON text of an instant as `Display` writes it.
pub open spec fn ts_json(t: Timestamp) -> JsonView {
    JsonView::Str(smithy_display_text(t.spec_seconds(), t.spec_subsecond_nanos()))
}

/// The JSON text of an instant as `Display` writes it, when there is one.
pub open spec fn opt_ts_json(o: Option<Timestamp>) -> Option<JsonView> {
    match o {
        Some(t) => Some(ts_json(t)),
        None => None,
    }
}

/// The JSON text of an instant in RFC 3339, empty where there is none.
pub open spec fn rfc_json(t: Timestamp) -> JsonView {
    JsonView::Str(rfc3339_or_empty_text(t.spec_seconds(), t.spec_subsecond_nanos()))
}

/// The JSON RFC 3339 text of an instant, when there is one.
pub open spec fn opt_rfc_json(o: Option<Timestamp>) -> Option<JsonView> {
    match o {
        Some(t) => Some(rfc_json(t)),
        None => None,
    }
}

impl JsonObject {
    /// Binds `key` to the instant's text, when there is an instant.
    pub fn insert_opt_ts(&mut self, key: &str, value: &Option<Timestamp>)
        ensures
            final(self).view() == with_opt(old(self).view(), key@, opt_ts_json(*value)),
    {
        match value {
            Some(t) => self.insert(key, JsonValue::Str(t.display_text())),
            None => {},
        }
    }

    /// Binds `key` to the instant's RFC 3339 text (empty where there is
    /// none), when there is an instant.
    pub fn insert_opt_rfc(&mut self, key: &str, value: &Option<Timestamp>)
        ensures
            final(self).view() == with_opt(old(self).view(), key@, opt_rfc_json(*value)),
    {
        match value {
            Some(t) => self.insert(key, JsonValue::Str(t.rfc3339_or_empty())),
            None => {},
        }
    }
}

} // verus!
