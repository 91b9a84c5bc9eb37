//! A point in time, in UTC, and its HTTP date text.

use vstd::prelude::*;

verus! {

/// The earliest second that a `UtcDateTime` holds: the start of the year
/// -262143.
pub const MIN_TIMESTAMP: i64 = -8_334_601_228_800;

/// The latest second that a `UtcDateTime` holds: the end of the year 262142.
pub const MAX_TIMESTAMP: i64 = 8_210_266_876_799;

/// Whether `secs` seconds of the Unix epoch and `nanos` nanoseconds are a
/// point in time that a `UtcDateTime` holds. The nanoseconds are below one
/// second; in the last second of a minute they may also stand for a leap
/// second, and are then below two seconds.
pub open spec fn is_date_time(secs: i64, nanos: u32) -> bool {
    &&& MIN_TIMESTAMP <= secs <= MAX_TIMESTAMP
    &&& nanos < 2_000_000_000
    &&& (nanos >= 1_000_000_000 ==> secs as int % 60 == 59)
}

/// The text of a point in time in the form that `format` describes in the
/// notation of `strftime`, where the point in time is one that a
/// `UtcDateTime` holds and the form can be written.
pub uninterp spec fn formatted_date(secs: i64, nanos: u32, format: Seq<char>) -> Option<Seq<char>>;

/// The form of an HTTP date: the short names of the day of the week and of
/// the month, the day in two digits, the year, the time of day, and `GMT`
/// (as in `Mon, 01 Jan 2024 00:00:00 GMT`).
pub open spec fn http_date_format() -> Seq<char> {
    "%a, %d %b %Y %T GMT"@
}

/// The longest HTTP date text, in characters: three for the day of the
/// week, two for the day, three for the month, up to seven for the year
/// with its sign, eight for the time, three for `GMT`, and six between them.
pub const HTTP_DATE_MAX_LEN: usize = 32;

/// The HTTP date text of a point in time.
pub open spec fn http_date(secs: i64, nanos: u32) -> Seq<char> {
    match formatted_date(secs, nanos, http_date_format()) {
        Some(text) => text,
        None => Seq::empty(),
    }
}

/// The point in time that a text writes in the form of RFC 3339, or in the
/// relaxed form of it that takes a space for the `T` and spaces between the
/// parts, as seconds of the Unix epoch and nanoseconds, where the text is
/// one.
pub uninterp spec fn parsed_date_time(text: Seq<char>) -> Option<(i64, u32)>;

/// The point in time that a text in the form of RFC 2822 writes (as in
/// `Tue, 1 Jul 2003 10:52:37 +0200`), as seconds of the Unix epoch and
/// nanoseconds, where the text is one.
pub uninterp spec fn parsed_rfc2822(text: Seq<char>) -> Option<(i64, u32)>;

/// The point in time that `text` writes in the form of RFC 2822, where it
/// writes one that a `UtcDateTime` holds.
pub open spec fn rfc2822_date_time_of(text: Seq<char>) -> Option<(i64, u32)> {
    match parsed_rfc2822(text) {
        Some(t) => if is_date_time(t.0, t.1) {
            Some(t)
        } else {
            None
        },
        None => None,
    }
}

/// The point in time that `text` writes in the form of RFC 3339 or its
/// relaxed form, where it writes one that a `UtcDateTime` holds.
pub open spec fn date_time_of(text: Seq<char>) -> Option<(i64, u32)> {
    match parsed_date_time(text) {
        Some(t) => if is_date_time(t.0, t.1) {
            Some(t)
        } else {
            None
        },
        None => None,
    }
}

/// What a date holds, where there is one.
pub open spec fn date_view(date: Option<UtcDateTime>) -> Option<(i64, u32)> {
    match date {
        Some(d) => Some(d@),
        None => None,
    }
}

/// The text of an optional text.
pub open spec fn optional_text(text: Option<String>) -> Option<Seq<char>> {
    match text {
        Some(t) => Some(t@),
        None => None,
    }
}

/// Calls `chrono::DateTime::from_timestamp`, then `format` with `format` on
/// the date, and `write_to` on what that returns. Believed: the first gives
/// a date exactly where `is_date_time` holds; the text, and whether one is
/// written, depend on the two numbers and the format alone; and the form of
/// an HTTP date can be written of every date, in no more than
/// `HTTP_DATE_MAX_LEN` characters: its parts have the widths that chrono
/// documents, and the year of a date has at most six digits.
#[verifier::external_body]
pub(crate) fn format_date(secs: i64, nanos: u32, format: &str) -> (r: Option<String>)
    ensures
        optional_text(r) == formatted_date(secs, nanos, format@),
        r is Some ==> is_date_time(secs, nanos),
        is_date_time(secs, nanos) && format@ == http_date_format() ==> r is Some,
        format@ == http_date_format() ==> (r matches Some(s) ==> s@.len() <= HTTP_DATE_MAX_LEN),
{
    match chrono::DateTime::from_timestamp(secs, nanos) {
        Some(date) => {
            let mut text = String::new();
            match date.format(format).write_to(&mut text) {
                Ok(()) => Some(text),
                Err(_) => None,
            }
        },
        None => None,
    }
}

/// Why a text is no date, as chrono tells it.
#[verifier::external_type_specification]
#[verifier::external_body]
pub struct ExChronoParseError(chrono::ParseError);

/// Calls `str::parse` for a `chrono::DateTime<chrono::Utc>`, which reads
/// the relaxed form of RFC 3339, and reads the date with `timestamp` and
/// `timestamp_subsec_nanos`. Believed: whether the text parses, and the two
/// numbers, depend on the text alone.
#[verifier::external_body]
pub(crate) fn parse_date_time(text: &str) -> (r: Result<(i64, u32), chrono::ParseError>)
    ensures
        match r {
            Ok(t) => parsed_date_time(text@) == Some(t),
            Err(_) => parsed_date_time(text@) is None,
        },
{
    let date = text.parse::<chrono::DateTime<chrono::Utc>>()?;
    Ok((date.timestamp(), date.timestamp_subsec_nanos()))
}

/// Calls `chrono::DateTime::parse_from_rfc2822`, and reads the date with
/// `timestamp` and `timestamp_subsec_nanos`. Believed: whether the text
/// parses, and the two numbers, depend on the text alone.
#[verifier::external_body]
pub(crate) fn parse_rfc2822(text: &str) -> (r: Result<(i64, u32), chrono::ParseError>)
    ensures
        match r {
            Ok(t) => parsed_rfc2822(text@) == Some(t),
            Err(_) => parsed_rfc2822(text@) is None,
        },
{
    let date = chrono::DateTime::parse_from_rfc2822(text)?;
    Ok((date.timestamp(), date.timestamp_subsec_nanos()))
}

/// A point in time, in UTC.
#[derive(Clone, Copy, Debug)]
pub struct UtcDateTime {
    secs: i64,
    nanos: u32,
}

impl View for UtcDateTime {
    type V = (i64, u32);

    /// The seconds of the Unix epoch, and the nanoseconds of the second.
    closed spec fn view(&self) -> (i64, u32) {
        (self.secs, self.nanos)
    }
}

impl UtcDateTime {
    #[verifier::type_invariant]
    spec fn well_formed(self) -> bool {
        is_date_time(self.secs, self.nanos)
    }

    /// The point in time at `secs` seconds of the Unix epoch and `nanos`
    /// nanoseconds, if there is one.
    pub fn from_timestamp(secs: i64, nanos: u32) -> (r: Option<Self>)
        ensures
            r is Some <==> is_date_time(secs, nanos),
            r matches Some(d) ==> d@ == (secs, nanos),
    {
        if secs < MIN_TIMESTAMP || secs > MAX_TIMESTAMP || nanos >= 2_000_000_000 {
            return None;
        }
        // `MIN_TIMESTAMP` is the start of a minute.
        let second_of_minute: i64 = (secs - MIN_TIMESTAMP) % 60;
        assert(second_of_minute == secs as int % 60);
        if nanos < 1_000_000_000 || second_of_minute == 59 {
            Some(UtcDateTime { secs, nanos })
        } else {
            None
        }
    }

    /// The point in time that `text` writes in the form of RFC 3339 or its
    /// relaxed form, if it writes one.
    pub fn parse(text: &str) -> (r: Option<Self>)
        ensures
            date_view(r) == date_time_of(text@),
    {
        match parse_date_time(text) {
            Ok(t) => Self::from_timestamp(t.0, t.1),
            Err(_) => None,
        }
    }

    /// The point in time that `text` writes in the form of RFC 2822, if it
    /// writes one.
    pub fn parse_from_rfc2822(text: &str) -> (r: Option<Self>)
        ensures
            date_view(r) == rfc2822_date_time_of(text@),
    {
        match parse_rfc2822(text) {
            Ok(t) => Self::from_timestamp(t.0, t.1),
            Err(_) => None,
        }
    }

    /// The second of the Unix epoch in which this point in time lies.
    pub fn timestamp(&self) -> (secs: i64)
        ensures
            secs == self@.0,
            MIN_TIMESTAMP <= secs <= MAX_TIMESTAMP,
    {
        proof {
            use_type_invariant(self);
        }
        self.secs
    }

    /// The nanoseconds since the start of that second.
    pub fn timestamp_subsec_nanos(&self) -> (nanos: u32)
        ensures
            nanos == self@.1,
            is_date_time(self@.0, nanos),
    {
        proof {
            use_type_invariant(self);
        }
        self.nanos
    }

    /// The HTTP date text of this point in time. It is no longer than
    /// `HTTP_DATE_MAX_LEN` characters.
    pub fn to_http_date(&self) -> (s: String)
        ensures
            s@ == http_date(self@.0, self@.1),
            formatted_date(self@.0, self@.1, http_date_format()) == Some(s@),
            s@.len() <= HTTP_DATE_MAX_LEN,
    {
        proof {
            use_type_invariant(self);
        }
        match format_date(self.secs, self.nanos, "%a, %d %b %Y %T GMT") {
            Some(s) => s,
            None => vstd::pervasive::unreached(),
        }
    }
}

} // verus!
