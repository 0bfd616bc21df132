//! The timestamp codec: one fixed layout, read and written by `chrono`.
use std::fmt::Write;
use vstd::prelude::*;
use crate::error::{Cause, Fault, MalformedPayload};
use crate::json::{same_text, Json, JsonView};
use crate::wire::Wire;

verus! {

/// An instant in UTC: the whole seconds since the start of 1970, leap seconds
/// not counted, and the nanoseconds since the last whole second (a billion or
/// more inside a leap second).
#[derive(Clone, Copy, Debug, PartialEq, Eq, Structural)]
pub struct Timestamp {
    pub seconds: i64,
    pub nanos: u32,
}

impl DeepView for Timestamp {
    type V = Timestamp;

    open spec fn deep_view(&self) -> Timestamp {
        *self
    }
}

/// The layout of a timestamp on the wire: weekday, month, day, time of day,
/// offset from UTC and year, as in `Wed Oct 10 20:19:24 +0000 2018`.
///
/// The day stands in two places, and a day below ten has a space before it
/// (`%e`): the second of January is `Wed Jan  2 03:04:05 +0000 2019`. That
/// is the one form that is written, and so the one form that is read: the
/// same day with a zero before it (`Jan 02`) is refused, like every other
/// text that would not be written back character for character.
pub const FORMAT: &'static str = "%a %b %e %T %z %Y";

/// The instant that `chrono` reads from `text` under `pattern` in UTC, or
/// nothing where it refuses the text.
pub uninterp spec fn parsed_instant(text: Seq<char>, pattern: Seq<char>) -> Option<(i64, u32)>;

/// The text that `chrono` writes for an instant under `pattern`, or nothing
/// where it has no date for the instant or cannot write it.
pub uninterp spec fn formatted_instant(seconds: i64, nanos: u32, pattern: Seq<char>) -> Option<
    Seq<char>,
>;

#[verifier::external_type_specification]
#[verifier::external_body]
pub struct ExParseError(chrono::ParseError);

/// `chrono::TimeZone::datetime_from_str` on `Utc`, and of the `DateTime` that
/// it gives `timestamp` and `timestamp_subsec_nanos`. The contract gives the
/// outcome its name: the same text and pattern always read alike.
#[verifier::external_body]
#[allow(deprecated)]
fn parse_instant(text: &str, pattern: &str) -> (r: Result<(i64, u32), chrono::ParseError>)
    ensures
        match r {
            Ok(at) => parsed_instant(text@, pattern@) == Some(at),
            Err(_) => parsed_instant(text@, pattern@) is None,
        },
{
    chrono::TimeZone::datetime_from_str(&chrono::Utc, text, pattern).map(
        |at| (at.timestamp(), at.timestamp_subsec_nanos()),
    )
}

/// `chrono::DateTime::from_timestamp`, and of the `DateTime` that it gives
/// `format`, written out. The contract gives the outcome its name: the same
/// instant and pattern are always written alike.
#[verifier::external_body]
fn format_instant(seconds: i64, nanos: u32, pattern: &str) -> (r: Option<String>)
    ensures
        match r {
            Some(text) => formatted_instant(seconds, nanos, pattern@) == Some(text@),
            None => formatted_instant(seconds, nanos, pattern@) is None,
        },
{
    let at = chrono::DateTime::from_timestamp(seconds, nanos)?;
    let mut text = String::new();
    write!(text, "{}", at.format(pattern)).ok()?;
    Some(text)
}

/// What a wire text decodes to: the instant that is read from it, where the
/// text is exactly what is written for that instant; else nothing.
pub open spec fn decoded_timestamp(text: Seq<char>) -> Option<Timestamp> {
    match parsed_instant(text, FORMAT@) {
        Some(at) => if formatted_instant(at.0, at.1, FORMAT@) == Some(text) {
            Some(Timestamp { seconds: at.0, nanos: at.1 })
        } else {
            None
        },
        None => None,
    }
}

/// The wire text of an instant, where it has one.
pub open spec fn encoded_timestamp(date: Timestamp) -> Option<Seq<char>> {
    formatted_instant(date.seconds, date.nanos, FORMAT@)
}

/// A text that decodes is the text that its instant encodes to, character
/// for character.
pub proof fn lemma_text_survives(text: Seq<char>)
    ensures
        decoded_timestamp(text) matches Some(date) ==> encoded_timestamp(date) == Some(text),
{
}

/// An instant that was decoded encodes, and decodes from its text as the same
/// instant again.
pub proof fn lemma_decoded_instant_survives(text: Seq<char>)
    ensures
        decoded_timestamp(text) matches Some(date) ==> decoded_timestamp(
            encoded_timestamp(date)->0,
        ) == Some(date),
{
}

/// Decides what a text decodes to, from the instant that was read from it and
/// the text that is written for that instant: the instant, where that text
/// is there and is the text on hand character for character; else a format
/// fault.
pub fn checked_instant(text: &str, at: (i64, u32), written: Option<&str>) -> (r: Result<
    Timestamp,
    MalformedPayload,
>)
    ensures
        r is Ok <==> (written matches Some(w) && w@ == text@),
        r matches Ok(date) ==> date == (Timestamp { seconds: at.0, nanos: at.1 }),
        r matches Err(e) ==> e.deep_view() == Fault::at(Cause::FormatMismatch),
{
    match written {
        Some(w) => if same_text(w, text) {
            Ok(Timestamp { seconds: at.0, nanos: at.1 })
        } else {
            Err(MalformedPayload::at(Cause::FormatMismatch))
        },
        None => Err(MalformedPayload::at(Cause::FormatMismatch)),
    }
}

/// Reads a timestamp in the fixed layout. A text that is not written exactly
/// as the layout has it is refused, though `chrono` may read it.
pub fn datefmt_de(text: &str) -> (r: Result<Timestamp, MalformedPayload>)
    ensures
        match r {
            Ok(date) => decoded_timestamp(text@) == Some(date),
            Err(e) => decoded_timestamp(text@) is None && e.deep_view() == Fault::at(
                Cause::FormatMismatch,
            ),
        },
{
    match parse_instant(text, FORMAT) {
        Ok(at) => {
            let written = format_instant(at.0, at.1, FORMAT);
            match &written {
                Some(w) => checked_instant(text, at, Some(w.as_str())),
                None => checked_instant(text, at, None),
            }
        },
        Err(_) => Err(MalformedPayload::at(Cause::FormatMismatch)),
    }
}

/// Writes a timestamp in the fixed layout, in UTC.
pub fn datefmt_ser(date: &Timestamp) -> (r: Option<String>)
    ensures
        match r {
            Some(text) => encoded_timestamp(*date) == Some(text@),
            None => encoded_timestamp(*date) is None,
        },
{
    format_instant(date.seconds, date.nanos, FORMAT)
}

impl Timestamp {
    /// Whether the instant survives the wire: whether it is written, and what
    /// is written for it is read as the same instant again.
    pub fn survives(&self) -> (r: bool)
        ensures
            r == (Timestamp::encodable(*self) && Timestamp::canonical(*self)),
    {
        match datefmt_ser(self) {
            Some(text) => match datefmt_de(text.as_str()) {
                Ok(date) => date.seconds == self.seconds && date.nanos == self.nanos,
                Err(_) => false,
            },
            None => false,
        }
    }
}

impl Wire for Timestamp {
    open spec fn decoded(j: JsonView) -> Result<Timestamp, Fault> {
        match j {
            JsonView::String(text) => match decoded_timestamp(text) {
                Some(date) => Ok(date),
                None => Err(Fault::at(Cause::FormatMismatch)),
            },
            _ => Err(Fault::at(Cause::TypeMismatch)),
        }
    }

    open spec fn encodable(v: Timestamp) -> bool {
        encoded_timestamp(v) is Some
    }

    open spec fn encoding(v: Timestamp) -> JsonView {
        JsonView::String(encoded_timestamp(v)->0)
    }

    /// The text written for the instant reads back as the same instant.
    open spec fn canonical(v: Timestamp) -> bool {
        decoded_timestamp(encoded_timestamp(v)->0) == Some(v)
    }

    fn decode(j: &Json) -> (r: Result<Timestamp, MalformedPayload>) {
        match j {
            Json::String(text) => datefmt_de(text.as_str()),
            _ => Err(MalformedPayload::at(Cause::TypeMismatch)),
        }
    }

    fn encode(&self) -> (r: Option<Json>) {
        match datefmt_ser(self) {
            Some(text) => Some(Json::String(text)),
            None => None,
        }
    }

    proof fn round_trip(v: Timestamp) {
    }

    proof fn decoded_canonical(j: JsonView) {
    }

    proof fn writable_encoding(v: Self::V) {
    }
}

} // verus!
