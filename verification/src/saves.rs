//! The names of the local save files, and which of them is the latest.

use crate::constants::{SAVE_FILE_DATE_FORMAT, SAVE_FILE_REGEX};
use crate::text::{
    all_digits, decimal, digit, first_at, free_of, i32_number, is_digit, lemma_decimal_is_read_back,
    lemma_first_at, lemma_first_at_is, lemma_first_piece, lemma_one_piece, occurs_at, parse_i32, pieces,
    digits_have_their_places, first_piece_goes_to_the_separator, number, push_decimal, split,
    text_result, views,
};
use chrono::Datelike;
use vstd::prelude::*;
use vstd::string::*;
use vstd::utf8::*;

verus! {

/// A day of the calendar.
#[derive(Clone, Copy, Debug, PartialEq, Eq, Structural)]
pub struct SaveDate {
    pub year: i32,
    pub month: u32,
    pub day: u32,
}

/// What stands in for the date of a file that is not named like a save file.
pub open spec fn epoch() -> SaveDate {
    SaveDate { year: 1970, month: 1, day: 1 }
}

/// The number of days of a month in the Gregorian calendar.
pub open spec fn days_in_month(year: int, month: int) -> int {
    if month == 2 {
        if year % 4 == 0 && (year % 100 != 0 || year % 400 == 0) {
            29
        } else {
            28
        }
    } else if month == 4 || month == 6 || month == 9 || month == 11 {
        30
    } else {
        31
    }
}

impl SaveDate {
    /// The day exists, and its year is one that the calendar reaches.
    pub open spec fn valid(self) -> bool {
        &&& -262143 <= self.year <= 262142
        &&& 1 <= self.month <= 12
        &&& 1 <= self.day <= days_in_month(self.year as int, self.month as int)
    }

    /// The day is `other` or comes before it.
    pub open spec fn at_most(self, other: SaveDate) -> bool {
        ||| self.year < other.year
        ||| self.year == other.year && self.month < other.month
        ||| self.year == other.year && self.month == other.month && self.day <= other.day
    }

    /// Tells whether the day is `other` or comes before it.
    pub fn is_at_most(self, other: SaveDate) -> (earlier: bool)
        ensures
            earlier == self.at_most(other),
    {
        self.year < other.year || (self.year == other.year && (self.month < other.month || (
        self.month == other.month && self.day <= other.day)))
    }
}

/// Two digits.
pub open spec fn two_digits(n: int) -> Seq<char> {
    seq![digit(n / 10), digit(n % 10)]
}

/// Day, month and year in digits, with hyphens between.
pub open spec fn day_month_year(date: SaveDate) -> Seq<char> {
    two_digits(date.day as int) + seq!['-'] + two_digits(date.month as int) + seq!['-']
        + two_digits(date.year / 100) + two_digits(date.year as int % 100)
}

/// Two digits, a hyphen, two digits, a hyphen and four digits stand in the text from `i` on.
pub open spec fn dated_at(text: Seq<char>, i: int) -> bool {
    &&& 0 <= i && i + 10 <= text.len()
    &&& is_digit(text[i]) && is_digit(text[i + 1])
    &&& text[i + 2] == '-'
    &&& is_digit(text[i + 3]) && is_digit(text[i + 4])
    &&& text[i + 5] == '-'
    &&& is_digit(text[i + 6]) && is_digit(text[i + 7])
    &&& is_digit(text[i + 8]) && is_digit(text[i + 9])
}

/// The number that two digits denote.
pub open spec fn pair(text: Seq<char>, i: int) -> int {
    (text[i] as int - 48) * 10 + (text[i + 1] as int - 48)
}

/// The name of a save file up to its end, where it is written in ASCII: the word, the date, a
/// version of one digit or more, any character but a line break, and the type of the file. What
/// follows does not matter.
pub open spec fn save_name_shape(name: Seq<char>) -> bool {
    &&& name.len() >= 25
    &&& name.take(7) == "kanban_"@
    &&& dated_at(name, 7)
    &&& name.subrange(17, 19) == "_v"@
    &&& exists|e: int|
        19 < e && e + 5 <= name.len() && all_digits(name.subrange(19, e)) && #[trigger] name[e]
            != '\n' && name.subrange(e + 1, e + 5) == "json"@
}

/// The pattern occurs in the text.
pub uninterp spec fn regex_is_match(pattern: Seq<char>, text: Seq<char>) -> bool;

/// `Regex::new` and `Regex::is_match` with the pattern of the save file names. Of ASCII text it is
/// said exactly what the pattern matches. Digits of other scripts match too; of every text that
/// matches it is said where its fixed characters stand.
#[verifier::external_body]
fn pattern_matches(pattern: &str, text: &str) -> (found: bool)
    requires
        pattern@ == SAVE_FILE_REGEX@,
    ensures
        found == regex_is_match(pattern@, text@),
        is_ascii_chars(text@) ==> found == save_name_shape(text@),
        found ==> text@.len() >= 25 && text@.take(7) == "kanban_"@ && text@.subrange(17, 19)
            == "_v"@,
{
    regex::Regex::new(pattern).unwrap().is_match(text)
}

/// The date that a text denotes in a notation.
pub uninterp spec fn date_parsed(text: Seq<char>, format: Seq<char>) -> Option<SaveDate>;

/// `NaiveDate::parse_from_str` reads a date. It gives only days that exist. Where the notation is
/// day, month and year and the text has two, two and four digits, it reads exactly those.
#[verifier::external_body]
fn parse_date(text: &str, format: &str) -> (date: Option<SaveDate>)
    ensures
        date == date_parsed(text@, format@),
        date matches Some(d) ==> d.valid(),
        format@ == SAVE_FILE_DATE_FORMAT@ && text@.len() == 10 && dated_at(text@, 0) ==> {
            let year = pair(text@, 6) * 100 + pair(text@, 8);
            let read = SaveDate {
                year: year as i32,
                month: pair(text@, 3) as u32,
                day: pair(text@, 0) as u32,
            };
            if read.valid() {
                date == Some(read)
            } else {
                date is None
            }
        },
{
    chrono::NaiveDate::parse_from_str(text, format).ok().map(
        |d| SaveDate { year: d.year(), month: d.month(), day: d.day() },
    )
}

/// The date in a notation.
pub uninterp spec fn date_formatted(date: SaveDate, format: Seq<char>) -> Seq<char>;

/// `NaiveDate::format` writes a date as day, month and year. A year of up to four digits is filled
/// up with zeros.
#[verifier::external_body]
fn format_date(date: SaveDate, format: &str) -> (text: String)
    requires
        date.valid(),
        format@ == SAVE_FILE_DATE_FORMAT@,
    ensures
        text@ == date_formatted(date, format@),
        0 <= date.year <= 9999 ==> text@ == day_month_year(date),
{
    chrono::NaiveDate::from_ymd_opt(date.year, date.month, date.day).unwrap().format(
        format,
    ).to_string()
}

/// What a file name says of the save in it.
#[derive(Clone, Copy, Debug, PartialEq, Eq, Structural)]
pub struct SaveName {
    /// The date in the name, if the file is named like a save file.
    pub date: Option<SaveDate>,
    /// The version in the name, and `-1` where there is none that an `i32` holds.
    pub version: i32,
}

/// The part of a save file's name that holds the date.
pub open spec fn date_part(file: Seq<char>) -> Seq<char> {
    pieces(file, "_"@)[1]
}

/// The version in a save file's name.
pub open spec fn version_in(file: Seq<char>) -> int {
    match i32_number(pieces(pieces(file, "_v"@)[1], "."@)[0]) {
        Some(n) => n,
        None => -1,
    }
}

/// The file is named like a save file.
pub open spec fn is_save_name(file: Seq<char>) -> bool {
    regex_is_match(SAVE_FILE_REGEX@, file)
}

/// The date in the name of a save file is one of the calendar.
pub open spec fn date_exists(file: Seq<char>) -> bool {
    is_save_name(file) ==> date_parsed(date_part(file), SAVE_FILE_DATE_FORMAT@) is Some
}

/// What the name of a file says.
pub open spec fn read_name(file: Seq<char>) -> SaveName {
    if is_save_name(file) {
        SaveName {
            date: date_parsed(date_part(file), SAVE_FILE_DATE_FORMAT@),
            version: version_in(file) as i32,
        }
    } else {
        SaveName { date: None, version: (-1) as i32 }
    }
}

/// The date that the digits in a save file's name denote.
pub open spec fn digits_date(file: Seq<char>) -> SaveDate {
    SaveDate {
        year: (pair(file, 13) * 100 + pair(file, 15)) as i32,
        month: pair(file, 10) as u32,
        day: pair(file, 7) as u32,
    }
}

/// The date in a name of ASCII characters, if it is that of a save file, is one of the calendar.
pub open spec fn ascii_date_exists(file: Seq<char>) -> bool {
    save_name_shape(file) ==> digits_date(file).valid()
}

/// What a name of ASCII characters says.
pub open spec fn ascii_name(file: Seq<char>) -> SaveName {
    if save_name_shape(file) {
        SaveName { date: Some(digits_date(file)), version: version_in(file) as i32 }
    } else {
        SaveName { date: None, version: (-1) as i32 }
    }
}

/// The name of the save file of a day and a version.
pub open spec fn save_file_name(date: Seq<char>, version: u32) -> Seq<char> {
    "kanban_"@ + date + "_v"@ + decimal(version as nat) + ".json"@
}

/// A separator that stands in a text makes at least two pieces of it.
proof fn lemma_two_pieces(text: Seq<char>, separator: Seq<char>, i: int)
    requires
        separator.len() > 0,
        occurs_at(text, separator, i),
    ensures
        pieces(text, separator).len() >= 2,
{
    lemma_first_at(text, separator, 0);
    let k = first_at(text, separator, 0)->0;
    let rest = text.skip(k + separator.len());
    assert(pieces(rest, separator).len() >= 1);
}

/// A file that is named like a save file has a date part and a version part.
proof fn lemma_save_name_parts(file: Seq<char>)
    requires
        file.len() >= 25,
        file.take(7) == "kanban_"@,
        file.subrange(17, 19) == "_v"@,
    ensures
        pieces(file, "_"@).len() >= 2,
        pieces(file, "_v"@).len() >= 2,
{
    reveal_strlit("kanban_");
    reveal_strlit("_");
    reveal_strlit("_v");
    assert(file.take(7)[6] == file[6]);
    assert(file.subrange(6, 7) =~= "_"@);
    lemma_two_pieces(file, "_"@, 6);
    lemma_two_pieces(file, "_v"@, 17);
}

/// The file has the name that the save of a day and a version is given.
pub open spec fn is_written_name(file: Seq<char>, date: SaveDate, version: u32) -> bool {
    &&& date.valid()
    &&& 0 <= date.year <= 9999
    &&& version <= i32::MAX
    &&& file == save_file_name(day_month_year(date), version)
}

/// The parts of a name that a save is given are the date and the version.
proof fn lemma_written_name(file: Seq<char>, date: SaveDate, version: u32)
    requires
        is_written_name(file, date, version),
    ensures
        is_ascii_chars(file),
        save_name_shape(file),
        date_part(file) == day_month_year(date),
        version_in(file) == version,
        dated_at(day_month_year(date), 0),
        pair(day_month_year(date), 0) == date.day,
        pair(day_month_year(date), 3) == date.month,
        pair(day_month_year(date), 6) * 100 + pair(day_month_year(date), 8) == date.year,
{
    reveal_strlit("kanban_");
    reveal_strlit("_v");
    reveal_strlit(".json");
    reveal_strlit("json");
    reveal_strlit("_");
    reveal_strlit(".");
    let day = day_month_year(date);
    let digits = decimal(version as nat);
    let n = digits.len() as int;
    lemma_decimal_is_read_back(version as nat);
    assert(day.len() == 10);
    assert(dated_at(day, 0));
    assert forall|i: int| 0 <= i < 10 implies #[trigger] file[7 + i] == day[i] by {}
    assert forall|i: int| 0 <= i < n implies #[trigger] file[19 + i] == digits[i] by {}
    assert(file.take(7) =~= "kanban_"@);
    assert(file.subrange(17, 19) =~= "_v"@);
    assert(file[17] == '_' && file[18] == 'v');
    assert(dated_at(file, 7)) by {
        assert(file[7] == day[0] && file[8] == day[1] && file[9] == day[2]);
        assert(file[10] == day[3] && file[11] == day[4] && file[12] == day[5]);
        assert(file[13] == day[6] && file[14] == day[7] && file[15] == day[8]);
        assert(file[16] == day[9]);
    }
    assert(file.subrange(19, 19 + n) =~= digits);
    assert(file[19 + n] == '.');
    assert(file.subrange(19 + n + 1, 19 + n + 5) =~= "json"@);
    assert(is_ascii_chars(file)) by {
        assert forall|i: int| 0 <= i < file.len() implies 0 <= #[trigger] file[i] as nat && (
        file[i] as nat) < 128 by {
            if 19 <= i < 19 + n {
                assert(is_digit(digits[i - 19]));
                assert(file[19 + (i - 19)] == digits[i - 19]);
            }
        }
    }
    // The part before the second underscore is the date.
    let tail = "v"@ + digits + ".json"@;
    reveal_strlit("v");
    reveal_strlit("kanban");
    let after = day + "_"@ + tail;
    assert(file =~= "kanban"@ + "_"@ + after);
    lemma_first_piece("kanban"@, "_"@, after);
    assert(free_of(day, '_'));
    lemma_first_piece(day, "_"@, tail);
    assert(pieces(file, "_"@)[1] == pieces(after, "_"@)[0]);
    // The part after the date starts with the version.
    let rest = digits + ".json"@;
    assert forall|j: int| 0 <= j < 17 implies !#[trigger] occurs_at(file, "_v"@, j) by {
        if occurs_at(file, "_v"@, j) {
            assert(file.subrange(j, j + 2)[0] == file[j]);
            assert(file.subrange(j, j + 2)[1] == file[j + 1]);
            if 7 <= j {
                assert(file[7 + (j - 7)] == day[j - 7]);
            }
        }
    }
    lemma_first_at_is(file, "_v"@, 17);
    assert(file.skip(19) =~= rest);
    assert(free_of(rest, '_')) by {
        assert forall|i: int| 0 <= i < rest.len() implies #[trigger] rest[i] != '_' by {
            if i < n {
                assert(is_digit(digits[i]));
            }
        }
    }
    lemma_one_piece(rest, "_v"@);
    assert(pieces(file, "_v"@)[1] == rest);
    assert(rest =~= digits + "."@ + "json"@);
    assert(free_of(digits, '.')) by {
        assert forall|i: int| 0 <= i < digits.len() implies #[trigger] digits[i] != '.' by {
            assert(is_digit(digits[i]));
        }
    }
    lemma_first_piece(digits, "."@, "json"@);
    assert(pieces(rest, "."@)[0] == digits);
    assert(is_digit(digits[0]));
}

/// The part of a save file's name that holds the date stands in its place.
proof fn lemma_date_part(file: Seq<char>)
    requires
        save_name_shape(file),
    ensures
        date_part(file) == file.subrange(7, 17),
        dated_at(date_part(file), 0),
        date_part(file).len() == 10,
        pair(date_part(file), 0) == pair(file, 7),
        pair(date_part(file), 3) == pair(file, 10),
        pair(date_part(file), 6) == pair(file, 13),
        pair(date_part(file), 8) == pair(file, 15),
{
    reveal_strlit("kanban_");
    reveal_strlit("kanban");
    reveal_strlit("_");
    reveal_strlit("_v");
    let day = file.subrange(7, 17);
    let tail = file.skip(18);
    let after = file.skip(7);
    assert forall|i: int| 0 <= i < 7 implies file[i] == "kanban_"@[i] by {
        assert(file.take(7)[i] == file[i]);
    }
    assert(file.subrange(17, 19)[0] == file[17]);
    assert(file =~= "kanban"@ + "_"@ + after);
    assert(after =~= day + "_"@ + tail);
    lemma_first_piece("kanban"@, "_"@, after);
    assert(free_of(day, '_')) by {
        assert forall|i: int| 0 <= i < day.len() implies #[trigger] day[i] != '_' by {
            assert(day[i] == file[7 + i]);
        }
    }
    lemma_first_piece(day, "_"@, tail);
    assert(pieces(file, "_"@)[1] == pieces(after, "_"@)[0]);
}

/// Tells whether the name of a file, if it is that of a save file, has a date of the calendar. Every
/// name that a save is given has one.
pub fn has_existing_date(file: &str) -> (existing: bool)
    ensures
        existing == date_exists(file@),
        is_ascii_chars(file@) ==> is_save_name(file@) == save_name_shape(file@),
        is_ascii_chars(file@) ==> existing == ascii_date_exists(file@),
        forall|date: SaveDate, version: u32|
            #[trigger] is_written_name(file@, date, version) ==> existing,
{
    proof {
        assert forall|date: SaveDate, version: u32| #[trigger]
            is_written_name(file@, date, version) implies save_name_shape(file@) && is_ascii_chars(
            file@,
        ) && date_part(file@).len() == 10 && dated_at(date_part(file@), 0) && pair(
            date_part(file@),
            0,
        ) == date.day && pair(date_part(file@), 3) == date.month && pair(date_part(file@), 6) * 100
            + pair(date_part(file@), 8) == date.year by {
            lemma_written_name(file@, date, version);
        }
    }
    if pattern_matches(SAVE_FILE_REGEX, file) {
        proof {
            lemma_save_name_parts(file@);
            if save_name_shape(file@) {
                lemma_date_part(file@);
            }
            reveal_strlit("_");
        }
        let parts = split(file, "_");
        assert(views(parts@).len() == parts@.len());
        assert(views(parts@)[1] == parts@[1]@);
        parse_date(parts[1].as_str(), SAVE_FILE_DATE_FORMAT).is_some()
    } else {
        true
    }
}

/// Reads the name of a file. From a name that a save was given, its date and version are read back.
pub fn read_save_name(file: &str) -> (name: SaveName)
    requires
        date_exists(file@),
    ensures
        name == read_name(file@),
        is_ascii_chars(file@) ==> is_save_name(file@) == save_name_shape(file@),
        is_ascii_chars(file@) ==> name == ascii_name(file@),
        name.date matches Some(d) ==> d.valid(),
        forall|date: SaveDate, version: u32|
            #[trigger] is_written_name(file@, date, version) ==> name == (SaveName {
                date: Some(date),
                version: version as i32,
            }),
{
    proof {
        assert forall|date: SaveDate, version: u32| #[trigger]
            is_written_name(file@, date, version) implies save_name_shape(file@) && is_ascii_chars(
            file@,
        ) && date_part(file@).len() == 10 && dated_at(date_part(file@), 0) && pair(
            date_part(file@),
            0,
        ) == date.day && pair(date_part(file@), 3) == date.month && pair(date_part(file@), 6) * 100
            + pair(date_part(file@), 8) == date.year && version_in(file@) == version by {
            lemma_written_name(file@, date, version);
        }
    }
    if pattern_matches(SAVE_FILE_REGEX, file) {
        proof {
            lemma_save_name_parts(file@);
            if save_name_shape(file@) {
                lemma_date_part(file@);
            }
            reveal_strlit("_");
            reveal_strlit("_v");
            reveal_strlit(".");
        }
        let parts = split(file, "_");
        assert(views(parts@).len() == parts@.len());
        assert(views(parts@)[1] == parts@[1]@);
        let date = parse_date(parts[1].as_str(), SAVE_FILE_DATE_FORMAT);
        let tail = split(file, "_v");
        assert(views(tail@).len() == tail@.len());
        assert(views(tail@)[1] == tail@[1]@);
        let version = split(tail[1].as_str(), ".");
        assert(views(version@).len() == version@.len());
        assert(views(version@)[0] == version@[0]@);
        let version: i32 = match parse_i32(version[0].as_str()) {
            Some(n) => n,
            None => -1,
        };
        SaveName { date, version }
    } else {
        SaveName { date: None, version: -1 }
    }
}

/// The date of a file, for the search of the latest one.
pub open spec fn date_or_epoch(name: SaveName) -> SaveDate {
    match name.date {
        Some(date) => date,
        None => epoch(),
    }
}

/// The latest date. A file that is not named like a save file counts with the epoch.
pub open spec fn latest_date(names: Seq<SaveName>) -> SaveDate
    recommends
        names.len() > 0,
    decreases names.len(),
{
    let last = date_or_epoch(names.last());
    if names.len() <= 1 || latest_date(names.drop_last()).at_most(last) {
        last
    } else {
        latest_date(names.drop_last())
    }
}

/// The greatest version among the save files of a day, and `-1` where there is none.
pub open spec fn latest_version(names: Seq<SaveName>, date: SaveDate) -> int
    decreases names.len(),
{
    if names.len() == 0 {
        -1
    } else {
        let before = latest_version(names.drop_last(), date);
        let last = names.last();
        if last.date == Some(date) && (before < last.version || !has_save_of(
            names.drop_last(),
            date,
        )) {
            last.version as int
        } else {
            before
        }
    }
}

/// Some save file is of the day.
pub open spec fn has_save_of(names: Seq<SaveName>, date: SaveDate) -> bool {
    exists|i: int| 0 <= i < names.len() && (#[trigger] names[i]).date == Some(date)
}

/// The date and the version of the latest save, if there is one.
pub open spec fn latest_save(names: Seq<SaveName>) -> Option<(SaveDate, int)> {
    if names.len() == 0 || latest_version(names, latest_date(names)) == -1 {
        None
    } else {
        Some((latest_date(names), latest_version(names, latest_date(names))))
    }
}

/// Finds the latest save among file names.
pub fn find_latest_save(names: &Vec<SaveName>) -> (latest: Option<(SaveDate, i32)>)
    ensures
        match latest {
            Some((date, version)) => latest_save(names@) == Some((date, version as int)),
            None => latest_save(names@) is None,
        },
        (forall|i: int|
            0 <= i < names@.len() ==> ((#[trigger] names@[i]).date matches Some(d) ==> d.valid()))
            ==> (latest matches Some((date, _)) ==> date.valid()),
{
    if names.len() == 0 {
        return None;
    }
    let mut date = SaveDate { year: 1970, month: 1, day: 1 };
    let mut i: usize = 0;
    while i < names.len()
        invariant
            i <= names@.len(),
            i > 0 ==> date == latest_date(names@.take(i as int)),
            (forall|k: int|
                0 <= k < names@.len() ==> ((#[trigger] names@[k]).date matches Some(d) ==> d.valid()))
                ==> date.valid(),
        decreases names@.len() - i,
    {
        let here = match names[i].date {
            Some(d) => d,
            None => SaveDate { year: 1970, month: 1, day: 1 },
        };
        assert(names@.take(i + 1).drop_last() =~= names@.take(i as int));
        assert(names@.take(i + 1).last() == names@[i as int]);
        if i == 0 || date.is_at_most(here) {
            date = here;
        }
        i = i + 1;
    }
    assert(names@.take(names@.len() as int) =~= names@);
    let mut version: i32 = -1;
    let mut found: bool = false;
    let mut j: usize = 0;
    while j < names.len()
        invariant
            j <= names@.len(),
            version == latest_version(names@.take(j as int), date),
            found == has_save_of(names@.take(j as int), date),
        decreases names@.len() - j,
    {
        let ghost before = names@.take(j as int);
        let ghost now = names@.take(j + 1);
        assert(now.drop_last() =~= before);
        assert(now.last() == names@[j as int]);
        let of_date = match names[j].date {
            Some(d) => d == date,
            None => false,
        };
        if of_date {
            if !found || version < names[j].version {
                version = names[j].version;
            }
            found = true;
            assert(now[j as int].date == Some(date));
        } else {
            assert(has_save_of(now, date) ==> has_save_of(before, date)) by {
                if has_save_of(now, date) {
                    let k = choose|k: int| 0 <= k < now.len() && (#[trigger] now[k]).date == Some(date);
                    assert(before[k] == now[k]);
                }
            }
        }
        assert(has_save_of(before, date) ==> has_save_of(now, date)) by {
            if has_save_of(before, date) {
                let k = choose|k: int| 0 <= k < before.len() && (#[trigger] before[k]).date == Some(date);
                assert(now[k] == before[k]);
            }
        }
        j = j + 1;
    }
    if version == -1 {
        None
    } else {
        Some((date, version))
    }
}

/// The names of a list of files.
pub open spec fn read_names(files: Seq<Seq<char>>) -> Seq<SaveName> {
    files.map_values(|file: Seq<char>| read_name(file))
}

/// The name of the latest save file, or the reason why there is none.
pub open spec fn latest_save_file(files: Option<Seq<Seq<char>>>) -> Result<Seq<char>, Seq<char>> {
    match files {
        None => Err("No local save files found"@),
        Some(list) => match latest_save(read_names(list)) {
            None => Err("No local save files found"@),
            Some((date, version)) => Ok(
                save_file_name(date_formatted(date, SAVE_FILE_DATE_FORMAT@), version as i32 as u32),
            ),
        },
    }
}

/// The views of a list of file names, where there is one.
pub open spec fn files_view(files: Option<Vec<String>>) -> Option<Seq<Seq<char>>> {
    match files {
        Some(list) => Some(views(list@)),
        None => None,
    }
}

/// The name of the latest save file. `local_save_files` are the files in the save directory, or
/// nothing where it could not be read. Where every file has the name that a save is given, it is the
/// name of the file of the latest date and, of that date, the greatest version.
pub fn get_latest_save_file(local_save_files: &Option<Vec<String>>) -> (name: Result<String, String>)
    requires
        files_view(*local_save_files) matches Some(list) ==> forall|i: int|
            0 <= i < list.len() ==> date_exists(#[trigger] list[i]),
    ensures
        text_result(name) == latest_save_file(files_view(*local_save_files)),
        files_view(*local_save_files) matches Some(list) ==> forall|i: int|
            0 <= i < list.len() && is_ascii_chars(#[trigger] list[i]) ==> is_save_name(list[i])
                == save_name_shape(list[i]) && read_name(list[i]) == ascii_name(list[i]),
        files_view(*local_save_files) matches Some(list) ==> (latest_save(read_names(list)) matches Some(
            (date, version),
        ) ==> 0 <= date.year <= 9999 ==> text_result(name) == Ok::<_, Seq<char>>(
            save_file_name(day_month_year(date), version as i32 as u32),
        )),
        files_view(*local_save_files) matches Some(list) ==> forall|
            dates: Seq<SaveDate>,
            versions: Seq<u32>,
        |
            list.len() > 0 && #[trigger] all_written(list, dates, versions) ==> (name matches Ok(text)
                && names_latest(list, dates, versions, text@)),
{
    let files = match local_save_files {
        None => return Err("No local save files found".to_owned()),
        Some(files) => files,
    };
    let mut names: Vec<SaveName> = Vec::new();
    let mut i: usize = 0;
    while i < files.len()
        invariant
            i <= files@.len(),
            forall|k: int| 0 <= k < views(files@).len() ==> date_exists(#[trigger] views(files@)[k]),
            names@ == read_names(views(files@)).take(i as int),
            forall|k: int|
                0 <= k < names@.len() ==> ((#[trigger] names@[k]).date matches Some(d) ==> d.valid()),
            forall|k: int, date: SaveDate, version: u32|
                0 <= k < i && #[trigger] is_written_name(views(files@)[k], date, version)
                    ==> names@[k] == (SaveName { date: Some(date), version: version as i32 }),
            forall|k: int|
                0 <= k < i && is_ascii_chars(#[trigger] views(files@)[k]) ==> is_save_name(
                    views(files@)[k],
                ) == save_name_shape(views(files@)[k]) && read_name(views(files@)[k]) == ascii_name(
                    views(files@)[k],
                ),
        decreases files@.len() - i,
    {
        assert(views(files@)[i as int] == files@[i as int]@);
        names.push(read_save_name(files[i].as_str()));
        assert(names@ =~= read_names(views(files@)).take(i + 1));
        i = i + 1;
    }
    assert(names@ =~= read_names(views(files@)));
    let ghost list = views(files@);
    let name = match find_latest_save(&names) {
        None => Err("No local save files found".to_owned()),
        Some((date, version)) => Ok(latest_file_text(date, version)),
    };
    proof {
        assert forall|dates: Seq<SaveDate>, versions: Seq<u32>|
            list.len() > 0 && #[trigger] all_written(list, dates, versions) implies (name matches Ok(
            text,
        ) && names_latest(list, dates, versions, text@)) by {
            assert forall|k: int| 0 <= k < list.len() implies #[trigger] names@[k] == (SaveName {
                date: Some(dates[k]),
                version: versions[k] as i32,
            }) by {
                assert(is_written_name(list[k], dates[k], versions[k]));
            }
            let k = lemma_latest_of_written(list, names@, dates, versions);
            assert(latest_at(dates, versions, k));
        }
    }
    name
}

/// Puts the name of a save file together.
fn latest_file_text(date: SaveDate, version: i32) -> (name: String)
    requires
        date.valid(),
    ensures
        name@ == save_file_name(date_formatted(date, SAVE_FILE_DATE_FORMAT@), version as u32),
        0 <= date.year <= 9999 ==> name@ == save_file_name(day_month_year(date), version as u32),
{
    let mut name = "kanban_".to_owned();
    let day = format_date(date, SAVE_FILE_DATE_FORMAT);
    name.append(day.as_str());
    name.append("_v");
    push_decimal(&mut name, (version as u32) as u64);
    name.append(".json");
    name
}

/// The name of the latest save file, where every date in the names of the save files exists.
pub fn try_get_latest_save_file(local_save_files: &Option<Vec<String>>) -> (name: Option<
    Result<String, String>,
>)
    ensures
        name is Some <==> (files_view(*local_save_files) matches Some(list) ==> forall|i: int|
            0 <= i < list.len() ==> date_exists(#[trigger] list[i])),
        name matches Some(n) ==> text_result(n) == latest_save_file(files_view(*local_save_files)),
        files_view(*local_save_files) matches Some(list) ==> forall|i: int|
            name is Some && 0 <= i < list.len() && is_ascii_chars(#[trigger] list[i])
                ==> is_save_name(list[i]) == save_name_shape(list[i]) && read_name(list[i])
                == ascii_name(list[i]),
        files_view(*local_save_files) matches Some(list) ==> (forall|i: int|
            0 <= i < list.len() ==> is_ascii_chars(#[trigger] list[i]) && ascii_date_exists(list[i]))
            ==> name is Some,
        files_view(*local_save_files) matches Some(list) ==> (latest_save(read_names(list)) matches Some(
            (date, version),
        ) ==> 0 <= date.year <= 9999 ==> (name matches Some(n) ==> text_result(n) == Ok::<_, Seq<char>>(
            save_file_name(day_month_year(date), version as i32 as u32),
        ))),
        files_view(*local_save_files) matches Some(list) ==> forall|
            dates: Seq<SaveDate>,
            versions: Seq<u32>,
        |
            list.len() > 0 && #[trigger] all_written(list, dates, versions) ==> (name matches Some(
                Ok(text),
            ) && names_latest(list, dates, versions, text@)),
{
    if let Some(files) = local_save_files {
        let mut i: usize = 0;
        while i < files.len()
            invariant
                i <= files@.len(),
                files_view(*local_save_files) == Some(views(files@)),
                forall|k: int| 0 <= k < i ==> date_exists(#[trigger] views(files@)[k]),
            decreases files@.len() - i,
        {
            assert(views(files@)[i as int] == files@[i as int]@);
            if !has_existing_date(files[i].as_str()) {
                proof {
                    let list = views(files@);
                    assert forall|dates: Seq<SaveDate>, versions: Seq<u32>| #[trigger]
                        all_written(list, dates, versions) implies false by {
                        assert(is_written_name(list[i as int], dates[i as int], versions[i as int]));
                    }
                }
                return None;
            }
            i = i + 1;
        }
    }
    Some(get_latest_save_file(local_save_files))
}

/// No file is later than the latest date, and some file has it.
pub proof fn latest_date_is_latest(names: Seq<SaveName>)
    requires
        names.len() > 0,
    ensures
        forall|i: int|
            0 <= i < names.len() ==> date_or_epoch(#[trigger] names[i]).at_most(latest_date(names)),
        exists|i: int| 0 <= i < names.len() && date_or_epoch(#[trigger] names[i]) == latest_date(names),
    decreases names.len(),
{
    let before = names.drop_last();
    if names.len() > 1 {
        latest_date_is_latest(before);
        assert forall|i: int| 0 <= i < names.len() implies date_or_epoch(
            #[trigger] names[i],
        ).at_most(latest_date(names)) by {
            if i < before.len() {
                assert(names[i] == before[i]);
            }
        }
        let k = choose|k: int| 0 <= k < before.len() && date_or_epoch(#[trigger] before[k])
            == latest_date(before);
        assert(names[k] == before[k]);
        assert(names[names.len() - 1] == names.last());
    } else {
        assert(names[0] == names.last());
    }
}

/// No save file of the day has a greater version than the latest, and some save file has it.
pub proof fn latest_version_is_latest(names: Seq<SaveName>, date: SaveDate)
    requires
        has_save_of(names, date),
    ensures
        forall|i: int|
            0 <= i < names.len() && (#[trigger] names[i]).date == Some(date) ==> names[i].version
                <= latest_version(names, date),
        exists|i: int|
            0 <= i < names.len() && (#[trigger] names[i]).date == Some(date) && names[i].version
                == latest_version(names, date),
    decreases names.len(),
{
    let before = names.drop_last();
    let last = names.len() - 1;
    assert(names[last] == names.last());
    if has_save_of(before, date) {
        latest_version_is_latest(before, date);
        let k = choose|k: int|
            0 <= k < before.len() && (#[trigger] before[k]).date == Some(date) && before[k].version
                == latest_version(before, date);
        assert(names[k] == before[k]);
        assert forall|i: int|
            0 <= i < names.len() && (#[trigger] names[i]).date == Some(date) implies names[i].version
            <= latest_version(names, date) by {
            if i < last {
                assert(names[i] == before[i]);
            }
        }
    } else {
        assert forall|i: int| 0 <= i < last implies (#[trigger] names[i]).date != Some(date) by {
            assert(names[i] == before[i]);
        }
    }
}

/// Every file is a save file under the name that it was given, and these are their dates and versions.
pub open spec fn all_written(
    files: Seq<Seq<char>>,
    dates: Seq<SaveDate>,
    versions: Seq<u32>,
) -> bool {
    &&& files.len() == dates.len()
    &&& files.len() == versions.len()
    &&& forall|i: int|
        0 <= i < files.len() ==> is_written_name(#[trigger] files[i], dates[i], versions[i])
}

/// No save has a later date than the one at `k`, nor a greater version of the same date.
pub open spec fn latest_at(dates: Seq<SaveDate>, versions: Seq<u32>, k: int) -> bool {
    &&& 0 <= k < dates.len()
    &&& forall|i: int|
        0 <= i < dates.len() ==> (#[trigger] dates[i]).at_most(dates[k]) && (dates[i] == dates[k]
            ==> versions[i] <= versions[k])
}

/// The name is that of the latest of the files.
pub open spec fn names_latest(
    files: Seq<Seq<char>>,
    dates: Seq<SaveDate>,
    versions: Seq<u32>,
    name: Seq<char>,
) -> bool {
    exists|k: int| #[trigger] latest_at(dates, versions, k) && name == files[k]
}

/// The latest save among names that saves were given is the one of the latest date and version.
proof fn lemma_latest_of_written(
    files: Seq<Seq<char>>,
    names: Seq<SaveName>,
    dates: Seq<SaveDate>,
    versions: Seq<u32>,
) -> (latest: int)
    requires
        files.len() > 0,
        names.len() == files.len(),
        all_written(files, dates, versions),
        forall|i: int|
            0 <= i < files.len() ==> #[trigger] names[i] == (SaveName {
                date: Some(dates[i]),
                version: versions[i] as i32,
            }),
    ensures
        latest_at(dates, versions, latest),
        latest_save(names) == Some((dates[latest], versions[latest] as int)),
        is_written_name(files[latest], dates[latest], versions[latest]),
{
    latest_date_is_latest(names);
    let date = latest_date(names);
    let k = choose|k: int| 0 <= k < names.len() && date_or_epoch(#[trigger] names[k]) == date;
    assert(names[k].date == Some(date));
    latest_version_is_latest(names, date);
    let version = latest_version(names, date);
    let latest = choose|i: int|
        0 <= i < names.len() && (#[trigger] names[i]).date == Some(date) && names[i].version
            == version;
    assert(is_written_name(files[latest], dates[latest], versions[latest]));
    assert(dates[latest] == date);
    assert forall|i: int| 0 <= i < dates.len() implies (#[trigger] dates[i]).at_most(dates[latest])
        && (dates[i] == dates[latest] ==> versions[i] <= versions[latest]) by {
        assert(date_or_epoch(names[i]).at_most(date));
        assert(is_written_name(files[i], dates[i], versions[i]));
    }
    latest
}

/// Of two days of the calendar the one with the lesser year comes first, in the same year the one with
/// the lesser month, and in the same month the one with the lesser day.
pub proof fn days_come_as_in_the_calendar(a: SaveDate, b: SaveDate)
    requires
        a.valid(),
        b.valid(),
    ensures
        a.at_most(b) <==> a.year * 10000 + a.month * 100 + a.day <= b.year * 10000 + b.month * 100
            + b.day,
        a.at_most(b) || b.at_most(a),
        a.at_most(b) && b.at_most(a) ==> a == b,
{
}

/// The latest save is one of the saves. None is of a later day, and none of the same day has a greater
/// version. Other files stand in the way of saves from before 1970 only.
pub proof fn the_latest_save_is_one_of_the_saves(names: Seq<SaveName>, k: int)
    ensures
        latest_save(names) matches Some((date, version)) ==> {
            &&& exists|i: int|
                0 <= i < names.len() && (#[trigger] names[i]).date == Some(date) && names[i].version
                    == version
            &&& forall|i: int|
                0 <= i < names.len() ==> ((#[trigger] names[i]).date matches Some(other)
                    ==> other.at_most(date) && (other == date ==> names[i].version <= version))
            &&& forall|i: int|
                0 <= i < names.len() && (#[trigger] names[i]).date is None ==> (SaveDate {
                    year: 1970,
                    month: 1,
                    day: 1,
                }).at_most(date)
        },
        0 <= k < names.len() && names[k].version >= 0 && (names[k].date matches Some(date) && (
        forall|i: int|
            0 <= i < names.len() ==> ((#[trigger] names[i]).date matches Some(other)
                ==> other.at_most(date))) && (forall|i: int|
            0 <= i < names.len() && (#[trigger] names[i]).date is None ==> (SaveDate {
                year: 1970,
                month: 1,
                day: 1,
            }).at_most(date))) ==> latest_save(names) is Some,
{
    if names.len() > 0 {
        latest_date_is_latest(names);
        let date = latest_date(names);
        if has_save_of(names, date) {
            latest_version_is_latest(names, date);
        } else {
            lemma_no_save_no_version(names, date);
        }
        assert forall|i: int| 0 <= i < names.len() implies ((#[trigger] names[i]).date matches Some(
            other,
        ) ==> other.at_most(date)) by {
            assert(date_or_epoch(names[i]).at_most(date));
        }
        assert forall|i: int| 0 <= i < names.len() && (#[trigger] names[i]).date is None implies (
        SaveDate { year: 1970, month: 1, day: 1 }).at_most(date) by {
            assert(date_or_epoch(names[i]).at_most(date));
        }
        if 0 <= k < names.len() && names[k].date is Some {
            assert(date_or_epoch(names[k]).at_most(date));
            let d = names[k].date->0;
            let m = choose|m: int|
                0 <= m < names.len() && date_or_epoch(#[trigger] names[m]) == date;
            assert(date_or_epoch(names[m]) == date);
            if date.at_most(d) {
                assert(date == d);
                assert(has_save_of(names, date));
                latest_version_is_latest(names, date);
                assert(names[k].version <= latest_version(names, date));
            }
        }
    }
}

/// Without a save of the day there is no version.
proof fn lemma_no_save_no_version(names: Seq<SaveName>, date: SaveDate)
    requires
        !has_save_of(names, date),
    ensures
        latest_version(names, date) == -1,
    decreases names.len(),
{
    if names.len() > 0 {
        let before = names.drop_last();
        assert(!has_save_of(before, date)) by {
            if has_save_of(before, date) {
                let i = choose|i: int| 0 <= i < before.len() && (#[trigger] before[i]).date == Some(date);
                assert(names[i].date == Some(date));
            }
        }
        lemma_no_save_no_version(before, date);
        assert(names[names.len() - 1] == names.last());
    }
}

/// The latest save file is named by the day and the version of the latest save.
pub proof fn the_latest_save_file_is_named_by_the_save(list: Seq<Seq<char>>)
    ensures
        latest_save(read_names(list)) is None <==> latest_save_file(Some(list)) is Err,
        latest_save(read_names(list)) matches Some((date, version)) ==> latest_save_file(Some(list))
            == Ok::<_, Seq<char>>(
            "kanban_"@ + date_formatted(date, "%d-%m-%Y"@) + "_v"@ + decimal(
                version as i32 as u32 as nat,
            ) + ".json"@,
        ),
        latest_save_file(None) is Err,
        read_names(list).len() == list.len(),
        forall|i: int| 0 <= i < list.len() ==> #[trigger] read_names(list)[i] == read_name(list[i]),
{
}

/// A day is written with two digits for the day, two for the month and four for the year.
pub proof fn days_are_written_in_digits(date: SaveDate)
    requires
        date.valid(),
        0 <= date.year <= 9999,
    ensures
        day_month_year(date).len() == 10,
        all_digits(day_month_year(date).take(2)),
        number(day_month_year(date).take(2)) == date.day,
        day_month_year(date)[2] == '-',
        all_digits(day_month_year(date).subrange(3, 5)),
        number(day_month_year(date).subrange(3, 5)) == date.month,
        day_month_year(date)[5] == '-',
        all_digits(day_month_year(date).skip(6)),
        number(day_month_year(date).skip(6)) == date.year,
{
    let text = day_month_year(date);
    lemma_two_digits(date.day as int);
    lemma_two_digits(date.month as int);
    assert(text.take(2) =~= two_digits(date.day as int));
    assert(text.subrange(3, 5) =~= two_digits(date.month as int));
    let high = two_digits(date.year / 100);
    let low = date.year as int % 100;
    let year = text.skip(6);
    lemma_two_digits(date.year / 100);
    lemma_two_digits(low);
    assert(year =~= high.push(digit(low / 10)).push(digit(low % 10)));
    digits_have_their_places(high, low / 10);
    digits_have_their_places(high.push(digit(low / 10)), low % 10);
}

/// Two digits denote the number that they were made of.
proof fn lemma_two_digits(n: int)
    requires
        0 <= n <= 99,
    ensures
        all_digits(two_digits(n)),
        number(two_digits(n)) == n,
{
    let empty = Seq::<char>::empty();
    digits_have_their_places(empty, n / 10);
    digits_have_their_places(empty.push(digit(n / 10)), n % 10);
    assert(two_digits(n) =~= empty.push(digit(n / 10)).push(digit(n % 10)));
}

/// The version in the name of a save file is the number that all the digits up to the dot denote, and
/// `-1` where an `i32` does not hold it. `e` is where the dot stands.
pub proof fn versions_are_read_whole(file: Seq<char>, e: int)
    requires
        save_name_shape(file),
        19 < e < file.len(),
        all_digits(file.subrange(19, e)),
        file[e] == '.',
    ensures
        version_in(file) == if number(file.subrange(19, e)) <= i32::MAX {
            number(file.subrange(19, e)) as int
        } else {
            -1
        },
{
    reveal_strlit("kanban_");
    reveal_strlit("_v");
    reveal_strlit(".");
    let digits = file.subrange(19, e);
    let rest = file.skip(19);
    assert(file.subrange(17, 19)[0] == file[17] && file.subrange(17, 19)[1] == file[18]);
    assert forall|j: int| 0 <= j < 17 implies !#[trigger] occurs_at(file, "_v"@, j) by {
        if occurs_at(file, "_v"@, j) {
            assert(file.subrange(j, j + 2)[0] == file[j]);
            assert(file.subrange(j, j + 2)[1] == file[j + 1]);
            if j < 7 {
                assert(file.take(7)[j] == file[j]);
                assert("kanban_"@[j] == '_');
                assert(j == 6);
                assert(is_digit(file[7]));
            }
        }
    }
    lemma_first_at_is(file, "_v"@, 17);
    assert(pieces(file, "_v"@)[1] == pieces(rest, "_v"@)[0]);
    let part = pieces(rest, "_v"@)[0];
    let after = first_piece_goes_to_the_separator(rest, "_v"@);
    let n = e - 19;
    assert forall|i: int| 0 <= i < n implies #[trigger] rest[i] == digits[i] && is_digit(rest[i]) by {
        assert(is_digit(digits[i]));
    }
    assert(rest[n] == '.');
    assert(part.len() > n) by {
        if part.len() <= n {
            assert(rest.len() > part.len());
            assert(after[0] == rest[part.len() as int]);
            assert(after.subrange(0, 2)[0] == after[0]);
        }
    }
    let tail = part.skip(n + 1);
    assert forall|i: int| 0 <= i <= n implies #[trigger] part[i] == rest[i] by {}
    assert(part =~= digits + "."@ + tail);
    assert(free_of(digits, '.')) by {
        assert forall|i: int| 0 <= i < digits.len() implies #[trigger] digits[i] != '.' by {
            assert(is_digit(digits[i]));
        }
    }
    lemma_first_piece(digits, "."@, tail);
    assert(pieces(part, "."@)[0] == digits);
    assert(is_digit(digits[0]));
}

/// The date in a name is what stands between the first two underscores.
pub proof fn dates_stand_between_underscores(head: Seq<char>, date: Seq<char>, tail: Seq<char>)
    requires
        free_of(head, '_'),
        free_of(date, '_'),
    ensures
        date_part(head + "_"@ + (date + "_"@ + tail)) == date,
{
    reveal_strlit("_");
    lemma_first_piece(head, "_"@, date + "_"@ + tail);
    lemma_first_piece(date, "_"@, tail);
}

/// A list of files is seen in its order.
pub proof fn files_are_seen_in_order(list: Vec<String>, i: int)
    ensures
        files_view(None) is None,
        files_view(Some(list)) matches Some(names) && names.len() == list@.len() && (0 <= i
            < list@.len() ==> names[i] == list@[i]@),
{
}

/// A file that is not named like a save file stops no search, and a save file stops it exactly where its
/// date does not exist.
pub proof fn only_impossible_dates_stop_the_search(file: Seq<char>)
    ensures
        !is_save_name(file) ==> date_exists(file) && read_name(file).date is None && read_name(
            file,
        ).version == -1,
        is_save_name(file) ==> (date_exists(file) <==> date_parsed(date_part(file), "%d-%m-%Y"@)
            is Some),
        is_save_name(file) ==> read_name(file).date == date_parsed(date_part(file), "%d-%m-%Y"@),
        is_save_name(file) <==> regex_is_match("^kanban_\\d{2}-\\d{2}-\\d{4}_v\\d+.json"@, file),
{
}

} // verus!
