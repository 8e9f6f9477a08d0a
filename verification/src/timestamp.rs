//! Points in time, written on the wire as RFC 3339 text.
//!
//! A [`Timestamp`] is an instant in UTC, kept with the text that stands for
//! it. The text is read and written by the `chrono` crate, and what chrono
//! computes has a name here. `from_unix` and `parse` make a timestamp only of
//! an instant that comes back from its own text, which they test.

use vstd::prelude::*;
use crate::error::{SchemaError, SchemaFault};
use crate::json::{JsonTree, JsonValue};
use crate::wire::Wire;

verus! {

/// The instant that chrono reads from `text`: the seconds since the start of
/// 1970 in UTC, and the nanoseconds within the second (a thousand million or
/// more within a leap second). `None` where chrono refuses the text.
pub uninterp spec fn rfc3339_instant(text: Seq<char>) -> Option<(i64, u32)>;

/// The text that chrono writes for an instant in UTC. `None` where chrono
/// cannot hold the instant.
pub uninterp spec fn rfc3339_text(secs: i64, nanos: u32) -> Option<Seq<char>>;

#[verifier::external_type_specification]
#[verifier::external_body]
pub struct ExParseError(::chrono::ParseError);

/// `str::parse` to a `chrono::DateTime<chrono::FixedOffset>`, which reads RFC
/// 3339 text, and of the result `timestamp` and `timestamp_subsec_nanos`. The
/// outcome depends on the text alone, and [`rfc3339_instant`] is its name.
#[verifier::external_body]
fn read_instant(text: &str) -> (out: Result<(i64, u32), ::chrono::ParseError>)
    ensures
        match out {
            Ok(at) => rfc3339_instant(text@) == Some(at),
            Err(_) => rfc3339_instant(text@) is None,
        },
{
    match text.parse::<::chrono::DateTime<::chrono::FixedOffset>>() {
        Ok(at) => Ok((at.timestamp(), at.timestamp_subsec_nanos())),
        Err(e) => Err(e),
    }
}

/// `chrono::DateTime::to_rfc3339_opts` with `SecondsFormat::AutoSi` and `Z`
/// for UTC, on the instant that `chrono::DateTime::from_timestamp` makes of
/// the two numbers. The outcome depends on the numbers alone, and
/// [`rfc3339_text`] is its name.
#[verifier::external_body]
fn write_instant(secs: i64, nanos: u32) -> (out: Option<String>)
    ensures
        match out {
            Some(text) => rfc3339_text(secs, nanos) == Some(text@),
            None => rfc3339_text(secs, nanos) is None,
        },
{
    match ::chrono::DateTime::from_timestamp(secs, nanos) {
        Some(at) => Some(at.to_rfc3339_opts(::chrono::SecondsFormat::AutoSi, true)),
        None => None,
    }
}

/// The model of a [`Timestamp`].
pub struct TimestampModel {
    pub secs: i64,
    pub nanos: u32,
    pub text: Seq<char>,
}

/// The text is the one written for the instant, and reads as the instant.
pub open spec fn canonical(m: TimestampModel) -> bool {
    &&& rfc3339_text(m.secs, m.nanos) == Some(m.text)
    &&& rfc3339_instant(m.text) == Some((m.secs, m.nanos))
}

/// The timestamp of an instant: the instant with its text, where the text
/// reads as the instant again.
pub open spec fn timestamp_at(secs: i64, nanos: u32) -> Option<TimestampModel> {
    match rfc3339_text(secs, nanos) {
        Some(text) => if rfc3339_instant(text) == Some((secs, nanos)) {
            Some(TimestampModel { secs, nanos, text })
        } else {
            None
        },
        None => None,
    }
}

/// The timestamp that a text denotes: that of the instant that the text reads
/// as. A text with an offset from UTC denotes the same instant in UTC.
pub open spec fn timestamp_of(text: Seq<char>) -> Option<TimestampModel> {
    match rfc3339_instant(text) {
        Some((secs, nanos)) => timestamp_at(secs, nanos),
        None => None,
    }
}

/// An instant in UTC with nanosecond precision.
#[derive(Debug, Clone, PartialEq, Eq)]
pub struct Timestamp {
    secs: i64,
    nanos: u32,
    text: String,
}

impl DeepView for Timestamp {
    type V = TimestampModel;

    closed spec fn deep_view(&self) -> TimestampModel {
        TimestampModel { secs: self.secs, nanos: self.nanos, text: self.text@ }
    }
}

impl Timestamp {
    /// The timestamp of an instant, given as seconds since the start of 1970
    /// in UTC and nanoseconds within the second.
    pub fn from_unix(secs: i64, nanos: u32) -> (out: Option<Timestamp>)
        ensures
            match out {
                Some(t) => timestamp_at(secs, nanos) == Some(t.deep_view()),
                None => timestamp_at(secs, nanos) is None,
            },
    {
        match write_instant(secs, nanos) {
            Some(text) => match read_instant(text.as_str()) {
                Ok(at) => {
                    if at.0 == secs && at.1 == nanos {
                        Some(Timestamp { secs, nanos, text })
                    } else {
                        None
                    }
                },
                Err(_) => None,
            },
            None => None,
        }
    }

    /// The timestamp that `text` denotes. A text that denotes none is refused as
    /// an invalid encoding.
    pub fn parse(text: &str) -> (out: Result<Timestamp, SchemaError>)
        ensures
            match out {
                Ok(t) => timestamp_of(text@) == Some(t.deep_view()),
                Err(e) => timestamp_of(text@) is None && e@ == (SchemaFault::InvalidEncoding {
                    of_type: "timestamp"@,
                }),
            },
    {
        let made = match read_instant(text) {
            Ok(at) => Timestamp::from_unix(at.0, at.1),
            Err(_) => None,
        };
        match made {
            Some(t) => Ok(t),
            None => Err(SchemaError::InvalidEncoding { of_type: String::from_str("timestamp") }),
        }
    }

    /// The seconds since the start of 1970 in UTC.
    pub fn secs(&self) -> (out: i64)
        ensures
            out == self.deep_view().secs,
    {
        self.secs
    }

    /// The nanoseconds within the second.
    pub fn nanos(&self) -> (out: u32)
        ensures
            out == self.deep_view().nanos,
    {
        self.nanos
    }

    /// The RFC 3339 text of the instant.
    pub fn text(&self) -> (out: &String)
        ensures
            out@ == self.deep_view().text,
    {
        &self.text
    }
}

impl Default for Timestamp {
    /// The start of 1970 in UTC, with the text that stands for it.
    fn default() -> (out: Timestamp)
        ensures
            out.deep_view() == (TimestampModel { secs: 0, nanos: 0, text: "1970-01-01T00:00:00Z"@ }),
    {
        Timestamp { secs: 0, nanos: 0, text: String::from_str("1970-01-01T00:00:00Z") }
    }
}

impl Wire for Timestamp {
    open spec fn encode(m: TimestampModel) -> JsonTree {
        JsonTree::String(m.text)
    }

    open spec fn decode(t: JsonTree) -> Result<TimestampModel, SchemaFault> {
        match t {
            JsonTree::String(text) => match timestamp_of(text) {
                Some(m) => Ok(m),
                None => Err(SchemaFault::InvalidEncoding { of_type: "timestamp"@ }),
            },
            _ => Err(SchemaFault::Malformed { of_type: "timestamp"@ }),
        }
    }

    open spec fn valid(m: TimestampModel) -> bool {
        canonical(m)
    }

    fn serialize(&self) -> (out: JsonValue) {
        JsonValue::String(self.text.clone())
    }

    fn deserialize(value: &JsonValue) -> (out: Result<Timestamp, SchemaError>) {
        match value {
            JsonValue::String(text) => Timestamp::parse(text.as_str()),
            _ => Err(SchemaError::Malformed { of_type: String::from_str("timestamp") }),
        }
    }

    proof fn round_trip(m: TimestampModel) {
    }

    proof fn decoded_valid(t: JsonTree) {
    }
}

} // verus!
