//! The time at which a cloud save was made, and how it is shown.

use crate::constants::CLOUD_TIMESTAMP_FORMAT;
use crate::saves::{pair, SaveDate};
use crate::text::{
    free_of, is_digit, lemma_first_piece, lemma_one_piece, pieces, split, text_option, views,
};
use chrono::{Datelike, Timelike};
use std::fmt::Write;
use vstd::prelude::*;
use vstd::string::*;

verus! {

/// A time of a day.
#[derive(Clone, Copy, Debug, PartialEq, Eq, Structural)]
pub struct Timestamp {
    pub date: SaveDate,
    pub hour: u32,
    pub minute: u32,
    pub second: u32,
    /// A thousand million or more in a leap second.
    pub nanosecond: u32,
}

impl Timestamp {
    /// The time exists.
    pub open spec fn valid(self) -> bool {
        &&& self.date.valid()
        &&& self.hour < 24
        &&& self.minute < 60
        &&& self.second < 60
        &&& self.nanosecond < 2_000_000_000
        &&& self.nanosecond >= 1_000_000_000 ==> self.second == 59
    }
}

/// The text is made of digits as in `2024-01-31T23:59:59`.
pub open spec fn timestamp_shape(text: Seq<char>) -> bool {
    &&& text.len() == 19
    &&& is_digit(text[0]) && is_digit(text[1]) && is_digit(text[2]) && is_digit(text[3])
    &&& text[4] == '-'
    &&& is_digit(text[5]) && is_digit(text[6])
    &&& text[7] == '-'
    &&& is_digit(text[8]) && is_digit(text[9])
    &&& text[10] == 'T'
    &&& is_digit(text[11]) && is_digit(text[12])
    &&& text[13] == ':'
    &&& is_digit(text[14]) && is_digit(text[15])
    &&& text[16] == ':'
    &&& is_digit(text[17]) && is_digit(text[18])
}

/// The time that the digits of such a text denote.
pub open spec fn timestamp_digits(text: Seq<char>) -> Timestamp {
    Timestamp {
        date: SaveDate {
            year: (pair(text, 0) * 100 + pair(text, 2)) as i32,
            month: pair(text, 5) as u32,
            day: pair(text, 8) as u32,
        },
        hour: pair(text, 11) as u32,
        minute: pair(text, 14) as u32,
        second: pair(text, 17) as u32,
        nanosecond: 0,
    }
}

/// The time that a text denotes in a notation.
pub uninterp spec fn timestamp_parsed(text: Seq<char>, format: Seq<char>) -> Option<Timestamp>;

/// `NaiveDateTime::parse_from_str` reads a time in the notation of the cloud. It gives only times that
/// exist. From digits in their usual places it reads exactly those; a sixtieth second, which stands
/// for a leap second, is left open here.
#[verifier::external_body]
fn parse_timestamp(text: &str, format: &str) -> (time: Option<Timestamp>)
    requires
        format@ == CLOUD_TIMESTAMP_FORMAT@,
    ensures
        time == timestamp_parsed(text@, format@),
        time matches Some(t) ==> t.valid(),
        timestamp_shape(text@) && pair(text@, 17) != 60 ==> time == (if timestamp_digits(
            text@,
        ).valid() {
            Some(timestamp_digits(text@))
        } else {
            None
        }),
{
    chrono::NaiveDateTime::parse_from_str(text, format).ok().map(
        |t| Timestamp {
            date: SaveDate { year: t.year(), month: t.month(), day: t.day() },
            hour: t.hour(),
            minute: t.minute(),
            second: t.second(),
            nanosecond: t.nanosecond(),
        },
    )
}

/// The time in a notation, if the notation is one.
pub uninterp spec fn timestamp_formatted(time: Timestamp, format: Seq<char>) -> Option<Seq<char>>;

/// `NaiveDateTime::format` writes a time in a notation. Nothing comes out where the notation is not
/// one for times without a zone.
#[verifier::external_body]
fn format_timestamp(time: Timestamp, format: &str) -> (text: Option<String>)
    requires
        time.valid(),
    ensures
        text_option(text) == timestamp_formatted(time, format@),
{
    let day = chrono::NaiveDate::from_ymd_opt(time.date.year, time.date.month, time.date.day).unwrap();
    let t = day.and_hms_nano_opt(time.hour, time.minute, time.second, time.nanosecond).unwrap();
    let mut text = String::new();
    write!(text, "{}", t.format(format)).ok().map(|_| text)
}

/// The time at which a cloud save was made: what stands before the first dot.
pub open spec fn created_time(created_at: Seq<char>) -> Option<Timestamp> {
    timestamp_parsed(pieces(created_at, "."@)[0], CLOUD_TIMESTAMP_FORMAT@)
}

/// The time that is read where what stands before the first dot is made of digits in their usual
/// places, but for a sixtieth second.
pub open spec fn created_time_is_plain(created_at: Seq<char>) -> bool {
    let head = pieces(created_at, "."@)[0];
    timestamp_shape(head) && pair(head, 17) != 60 ==> created_time(created_at) == (
    if timestamp_digits(head).valid() {
        Some(timestamp_digits(head))
    } else {
        None
    })
}

/// The time can be shown in the notation, if it is one.
pub open spec fn date_format_fits(created_at: Seq<char>, date_format: Seq<char>) -> bool {
    created_time(created_at) matches Some(time) ==> timestamp_formatted(time, date_format) is Some
}

/// The time at which a cloud save was made as it is shown, if the save says it.
pub open spec fn shown_time(created_at: Seq<char>, date_format: Seq<char>) -> Option<Seq<char>> {
    match created_time(created_at) {
        None => None,
        Some(time) => timestamp_formatted(time, date_format),
    }
}

/// Reads the time at which a cloud save was made.
fn read_created_time(created_at: &str) -> (time: Option<Timestamp>)
    ensures
        time == created_time(created_at@),
        created_time_is_plain(created_at@),
        time matches Some(t) ==> t.valid(),
{
    proof {
        reveal_strlit(".");
    }
    let parts = split(created_at, ".");
    assert(views(parts@).len() == parts@.len());
    assert(pieces(created_at@, "."@).len() >= 1);
    assert(views(parts@)[0] == parts@[0]@);
    parse_timestamp(parts[0].as_str(), CLOUD_TIMESTAMP_FORMAT)
}

/// The time at which a cloud save was made as it is shown, if the save says it.
pub fn preview_date(created_at: &str, date_format: &str) -> (date: Option<String>)
    requires
        date_format_fits(created_at@, date_format@),
    ensures
        text_option(date) == shown_time(created_at@, date_format@),
        created_time_is_plain(created_at@),
{
    match read_created_time(created_at) {
        None => None,
        Some(time) => format_timestamp(time, date_format),
    }
}

/// The same where the time can be shown in the notation.
pub fn try_preview_date(created_at: &str, date_format: &str) -> (date: Option<Option<String>>)
    ensures
        date is Some <==> date_format_fits(created_at@, date_format@),
        date matches Some(d) ==> text_option(d) == shown_time(created_at@, date_format@),
        created_time_is_plain(created_at@),
{
    if let Some(time) = read_created_time(created_at) {
        if format_timestamp(time, date_format).is_none() {
            return None;
        }
    }
    Some(preview_date(created_at, date_format))
}

/// The time of a save is read from everything that stands before the first dot, and from nothing behind
/// it, in the notation of the cloud.
pub proof fn times_are_read_up_to_the_dot(head: Seq<char>, fraction: Seq<char>, date_format: Seq<char>)
    requires
        free_of(head, '.'),
    ensures
        created_time(head + "."@ + fraction) == timestamp_parsed(head, "%Y-%m-%dT%H:%M:%S"@),
        created_time(head) == timestamp_parsed(head, "%Y-%m-%dT%H:%M:%S"@),
        shown_time(head + "."@ + fraction, date_format) == shown_time(head, date_format),
        timestamp_parsed(head, "%Y-%m-%dT%H:%M:%S"@) matches Some(time) ==> shown_time(
            head,
            date_format,
        ) == timestamp_formatted(time, date_format),
        timestamp_parsed(head, "%Y-%m-%dT%H:%M:%S"@) is None ==> shown_time(head, date_format) is None,
{
    reveal_strlit(".");
    lemma_first_piece(head, "."@, fraction);
    lemma_one_piece(head, "."@);
}

/// A notation fits exactly where the time, if the save says one, can be written in it.
pub proof fn notations_fit_times(created_at: Seq<char>, date_format: Seq<char>)
    ensures
        created_time(created_at) is None ==> date_format_fits(created_at, date_format),
        created_time(created_at) matches Some(time) ==> (date_format_fits(created_at, date_format)
            <==> timestamp_formatted(time, date_format) is Some),
{
}

} // verus!
