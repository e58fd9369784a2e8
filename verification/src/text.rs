//! Text as a sequence of characters: searching, splitting and decimal numbers.

use vstd::prelude::*;
use vstd::string::*;

verus! {

/// `String::push` appends the character to the end of the text.
pub assume_specification[ String::push ](text: &mut String, c: char)
    ensures
        final(text)@ == old(text)@.push(c),
;

/// `part` stands in `text` at position `i`.
pub open spec fn occurs_at(text: Seq<char>, part: Seq<char>, i: int) -> bool {
    0 <= i && i + part.len() <= text.len() && text.subrange(i, i + part.len()) == part
}

/// The first position at or after `from` at which `part` stands in `text`.
pub open spec fn first_at(text: Seq<char>, part: Seq<char>, from: int) -> Option<int>
    decreases text.len() + 1 - from,
{
    if from < 0 || from + part.len() > text.len() {
        None
    } else if occurs_at(text, part, from) {
        Some(from)
    } else {
        first_at(text, part, from + 1)
    }
}

/// The pieces of `text` between the occurrences of `separator`, taken from the left.
pub open spec fn pieces(text: Seq<char>, separator: Seq<char>) -> Seq<Seq<char>>
    recommends
        separator.len() > 0,
    decreases text.len(),
    when separator.len() > 0
{
    proof {
        lemma_first_at(text, separator, 0);
    }
    match first_at(text, separator, 0) {
        None => seq![text],
        Some(i) => seq![text.take(i)] + pieces(text.skip(i + separator.len()), separator),
    }
}

/// `first_at` finds the least position, and finds nothing only where there is none.
pub proof fn lemma_first_at(text: Seq<char>, part: Seq<char>, from: int)
    requires
        from >= 0,
    ensures
        match first_at(text, part, from) {
            Some(i) => from <= i && occurs_at(text, part, i) && forall|j: int|
                from <= j < i ==> !#[trigger] occurs_at(text, part, j),
            None => forall|j: int| from <= j ==> !#[trigger] occurs_at(text, part, j),
        },
    decreases text.len() + 1 - from,
{
    if from + part.len() <= text.len() && !occurs_at(text, part, from) {
        lemma_first_at(text, part, from + 1);
    }
}

/// A position that is the least occurrence is the one that `first_at` finds.
pub proof fn lemma_first_at_is(text: Seq<char>, part: Seq<char>, i: int)
    requires
        occurs_at(text, part, i),
        forall|j: int| 0 <= j < i ==> !#[trigger] occurs_at(text, part, j),
    ensures
        first_at(text, part, 0) == Some(i),
{
    lemma_first_at(text, part, 0);
}

/// The characters of `text`, in order.
pub fn chars_of(text: &str) -> (chars: Vec<char>)
    ensures
        chars@ == text@,
{
    let mut chars: Vec<char> = Vec::new();
    for c in it: text.chars()
        invariant
            chars@ == it.seq().take(it.index()),
            it.seq() == text@,
    {
        chars.push(c);
    }
    chars
}

/// Finds the first occurrence of `part` in `text` at or after `from`.
fn find_from(text: &Vec<char>, part: &Vec<char>, from: usize) -> (found: Option<usize>)
    requires
        from <= text@.len(),
    ensures
        match found {
            Some(i) => first_at(text@, part@, from as int) == Some(i as int),
            None => first_at(text@, part@, from as int) is None,
        },
{
    let mut i: usize = from;
    while part.len() <= text.len() - i
        invariant
            from <= i <= text.len(),
            first_at(text@, part@, from as int) == first_at(text@, part@, i as int),
        decreases text@.len() - i,
    {
        let mut k: usize = 0;
        while k < part.len() && text[i + k] == part[k]
            invariant
                i + part.len() <= text.len(),
                k <= part@.len(),
                forall|j: int| 0 <= j < k ==> text@[i + j] == part@[j],
            decreases part@.len() - k,
        {
            k = k + 1;
        }
        if k == part.len() {
            assert(text@.subrange(i as int, i + part@.len()) =~= part@);
            return Some(i);
        }
        assert(text@.subrange(i as int, i + part@.len())[k as int] != part@[k as int]);
        if i == text.len() {
            return None;
        }
        i = i + 1;
    }
    None
}

/// The texts of a list.
pub open spec fn views(list: Seq<String>) -> Seq<Seq<char>> {
    list.map_values(|text: String| text@)
}

/// The text, where there is one.
pub open spec fn text_option(text: Option<String>) -> Option<Seq<char>> {
    match text {
        Some(t) => Some(t@),
        None => None,
    }
}

/// The text or the message.
pub open spec fn text_result(result: Result<String, String>) -> Result<Seq<char>, Seq<char>> {
    match result {
        Ok(text) => Ok(text@),
        Err(message) => Err(message@),
    }
}

/// Splits `text` at every occurrence of `separator`.
pub fn split(text: &str, separator: &str) -> (parts: Vec<String>)
    requires
        separator@.len() > 0,
    ensures
        views(parts@) == pieces(text@, separator@),
{
    let chars = chars_of(text);
    let sep = chars_of(separator);
    let mut parts: Vec<String> = Vec::new();
    let mut from: usize = 0;
    assert(text@.skip(0) =~= text@);
    assert(views(parts@) + pieces(text@, separator@) =~= pieces(text@, separator@));
    loop
        invariant_except_break
            views(parts@) + pieces(text@.skip(from as int), separator@) == pieces(text@, separator@),
        invariant
            chars@ == text@,
            sep@ == separator@,
            sep@.len() > 0,
            from <= chars@.len(),
        ensures
            views(parts@) == pieces(text@, separator@),
        decreases chars@.len() - from,
    {
        let ghost rest = text@.skip(from as int);
        proof {
            lemma_first_at(text@, separator@, from as int);
            lemma_first_at_skip(text@, separator@, from as int);
        }
        let ghost before = parts@;
        match find_from(&chars, &sep, from) {
            None => {
                let last = text.substring_char(from, chars.len()).to_owned();
                parts.push(last);
                assert(last@ =~= rest);
                assert(views(parts@) =~= views(before) + seq![rest]);
                break;
            },
            Some(i) => {
                let part = text.substring_char(from, i).to_owned();
                parts.push(part);
                assert(part@ =~= rest.take(i - from));
                assert(views(parts@) =~= views(before) + seq![rest.take(i - from)]);
                let ghost after = rest.skip(i - from + separator@.len());
                assert(i + sep.len() <= chars.len());
                from = i + sep.len();
                assert(after =~= text@.skip(from as int));
                assert(views(parts@) + pieces(after, separator@) =~= views(before) + pieces(
                    rest,
                    separator@,
                ));
            },
        }
    }
    parts
}

/// Searching in the rest of a text is searching in the text from that position on.
proof fn lemma_first_at_skip(text: Seq<char>, part: Seq<char>, from: int)
    requires
        0 <= from <= text.len(),
    ensures
        first_at(text.skip(from), part, 0) == match first_at(text, part, from) {
            Some(i) => Some(i - from),
            None => None,
        },
{
    let rest = text.skip(from);
    lemma_first_at(text, part, from);
    lemma_first_at(rest, part, 0);
    assert forall|j: int| 0 <= j implies occurs_at(rest, part, j) == occurs_at(text, part, from + j) by {
        if j + part.len() <= rest.len() {
            assert(rest.subrange(j, j + part.len()) =~= text.subrange(
                from + j,
                from + j + part.len(),
            ));
        }
    }
    match first_at(text, part, from) {
        Some(i) => {
            assert(occurs_at(rest, part, i - from));
        },
        None => {},
    }
}

/// The character does not occur in the text.
pub open spec fn free_of(text: Seq<char>, c: char) -> bool {
    forall|i: int| 0 <= i < text.len() ==> #[trigger] text[i] != c
}

/// A text without the first character of the separator is one piece.
pub proof fn lemma_one_piece(text: Seq<char>, separator: Seq<char>)
    requires
        separator.len() > 0,
        free_of(text, separator[0]),
    ensures
        pieces(text, separator) == seq![text],
{
    lemma_first_at(text, separator, 0);
    if let Some(i) = first_at(text, separator, 0) {
        assert(text.subrange(i, i + separator.len())[0] == text[i]);
    }
}

/// A separator ends the piece before it, if that piece lacks the first character of the separator.
pub proof fn lemma_first_piece(piece: Seq<char>, separator: Seq<char>, rest: Seq<char>)
    requires
        separator.len() > 0,
        free_of(piece, separator[0]),
    ensures
        pieces(piece + separator + rest, separator) == seq![piece] + pieces(rest, separator),
{
    let text = piece + separator + rest;
    let n = piece.len() as int;
    assert(text.subrange(n, n + separator.len()) =~= separator);
    assert forall|j: int| 0 <= j < n implies !#[trigger] occurs_at(text, separator, j) by {
        if occurs_at(text, separator, j) {
            assert(text.subrange(j, j + separator.len())[0] == text[j]);
            assert(text[j] == piece[j]);
        }
    }
    lemma_first_at_is(text, separator, n);
    assert(text.take(n) =~= piece);
    assert(text.skip(n + separator.len()) =~= rest);
}

/// A separator at the end adds an empty piece.
pub proof fn lemma_separator_at_end(text: Seq<char>, separator: Seq<char>)
    requires
        separator.len() == 1,
    ensures
        pieces(text + separator, separator) == pieces(text, separator).push(Seq::empty()),
        pieces(text, separator).len() >= 1,
    decreases text.len(),
{
    let longer = text + separator;
    let n = text.len() as int;
    lemma_first_at(text, separator, 0);
    assert forall|j: int| 0 <= j < n implies occurs_at(longer, separator, j) == occurs_at(
        text,
        separator,
        j,
    ) by {
        assert(longer.subrange(j, j + 1) =~= text.subrange(j, j + 1));
    }
    assert(longer.subrange(n, n + 1) =~= separator);
    match first_at(text, separator, 0) {
        Some(i) => {
            lemma_first_at_is(longer, separator, i);
            lemma_separator_at_end(text.skip(i + 1), separator);
            assert(longer.skip(i + 1) =~= text.skip(i + 1) + separator);
            assert(longer.take(i) =~= text.take(i));
        },
        None => {
            lemma_first_at_is(longer, separator, n);
            assert(longer.take(n) =~= text);
            assert(longer.skip(n + 1) =~= Seq::<char>::empty());
            lemma_one_piece(Seq::<char>::empty(), separator);
        },
    }
}

/// The character of a digit.
pub open spec fn digit(d: int) -> char {
    (48 + d) as char
}

/// The decimal notation of a number, without leading zeros.
pub open spec fn decimal(n: nat) -> Seq<char>
    decreases n,
{
    if n < 10 {
        seq![digit(n as int)]
    } else {
        decimal(n / 10).push(digit((n % 10) as int))
    }
}

/// Appends the decimal notation of a number.
pub fn push_decimal(text: &mut String, n: u64)
    ensures
        final(text)@ == old(text)@ + decimal(n as nat),
    decreases n,
{
    if n >= 10 {
        push_decimal(text, n / 10);
    }
    let d: u8 = 48 + (n % 10) as u8;
    text.push(d as char);
}

/// The character is one of the ten ASCII digits.
pub open spec fn is_digit(c: char) -> bool {
    '0' <= c <= '9'
}

/// Every character of the text is an ASCII digit.
pub open spec fn all_digits(text: Seq<char>) -> bool {
    forall|i: int| 0 <= i < text.len() ==> is_digit(#[trigger] text[i])
}

/// The number that a row of digits denotes.
pub open spec fn number(digits: Seq<char>) -> nat
    decreases digits.len(),
{
    if digits.len() == 0 {
        0
    } else {
        number(digits.drop_last()) * 10 + (digits.last() as nat - 48) as nat
    }
}

/// The decimal notation of a number is a row of digits that denotes the number.
pub proof fn lemma_decimal_is_read_back(n: nat)
    ensures
        decimal(n).len() > 0,
        all_digits(decimal(n)),
        number(decimal(n)) == n,
    decreases n,
{
    if n >= 10 {
        lemma_decimal_is_read_back(n / 10);
        assert(decimal(n).drop_last() =~= decimal(n / 10));
        assert forall|i: int| 0 <= i < decimal(n).len() implies is_digit(
            #[trigger] decimal(n)[i],
        ) by {
            if i < decimal(n / 10).len() {
                assert(decimal(n)[i] == decimal(n / 10)[i]);
            }
        }
    } else {
        assert(decimal(n).drop_last() =~= Seq::<char>::empty());
        assert(number(Seq::<char>::empty()) == 0);
    }
}

/// A row of digits with a sign before it, or none.
pub open spec fn signed_number(text: Seq<char>) -> Option<int> {
    let signed = text.len() > 0 && (text[0] == '+' || text[0] == '-');
    let digits = if signed {
        text.skip(1)
    } else {
        text
    };
    if digits.len() == 0 || !all_digits(digits) {
        None
    } else if text[0] == '-' {
        Some(-(number(digits) as int))
    } else {
        Some(number(digits) as int)
    }
}

/// The number that the text denotes, where it fits an `i32`.
pub open spec fn i32_number(text: Seq<char>) -> Option<int> {
    match signed_number(text) {
        Some(n) if i32::MIN <= n <= i32::MAX => Some(n),
        _ => None,
    }
}

/// More digits never make a number smaller.
proof fn lemma_number_grows(digits: Seq<char>, k: int)
    requires
        0 <= k <= digits.len(),
    ensures
        number(digits.take(k)) <= number(digits),
    decreases digits.len(),
{
    if k < digits.len() {
        lemma_number_grows(digits.drop_last(), k);
        assert(digits.drop_last().take(k) =~= digits.take(k));
    } else {
        assert(digits.take(k) =~= digits);
    }
}

/// Reads a number with an optional sign. Anything else, and a number that an `i32` does not hold,
/// gives nothing.
pub fn parse_i32(text: &str) -> (value: Option<i32>)
    ensures
        match value {
            Some(n) => i32_number(text@) == Some(n as int),
            None => i32_number(text@) is None,
        },
{
    let chars = chars_of(text);
    let negative: bool = chars.len() > 0 && chars[0] == '-';
    let start: usize = if negative || (chars.len() > 0 && chars[0] == '+') {
        1
    } else {
        0
    };
    let ghost digits = text@.skip(start as int);
    assert(start == 0 ==> digits =~= text@);
    if chars.len() == start {
        return None;
    }
    let mut value: i64 = 0;
    let mut i: usize = start;
    assert(digits.take(0) =~= Seq::<char>::empty());
    while i < chars.len()
        invariant
            chars@ == text@,
            start <= i <= chars@.len(),
            digits == text@.skip(start as int),
            0 <= value <= 0x8000_0000,
            value == number(digits.take(i - start)),
            forall|j: int| 0 <= j < i - start ==> is_digit(#[trigger] digits[j]),
            negative == (text@.len() > 0 && text@[0] == '-'),
            start == (if text@.len() > 0 && (text@[0] == '+' || text@[0] == '-') { 1int } else { 0 }),
            start < chars@.len(),
            start == 0 ==> digits == text@,
        decreases chars@.len() - i,
    {
        let c = chars[i];
        assert(digits[i - start] == c);
        if !('0' <= c && c <= '9') {
            return None;
        }
        let ghost before = digits.take(i - start);
        let ghost now = digits.take(i + 1 - start);
        assert(now.drop_last() =~= before);
        value = value * 10 + (c as u32 - 48) as i64;
        if value > 0x8000_0000 {
            proof {
                lemma_number_grows(digits, i + 1 - start);
            }
            return None;
        }
        i = i + 1;
    }
    assert(digits.take(digits.len() as int) =~= digits);
    if negative {
        Some((0 - value) as i32)
    } else if value <= 0x7fff_ffff {
        Some(value as i32)
    } else {
        None
    }
}

/// The texts of a list stand in the order of the list.
pub proof fn views_keep_order(list: Seq<String>)
    ensures
        views(list).len() == list.len(),
        forall|i: int| 0 <= i < list.len() ==> #[trigger] views(list)[i] == list[i]@,
{
}

/// A text that is there is seen as it is, and so is a message.
pub proof fn texts_are_seen_as_they_are(text: String)
    ensures
        text_option(Some(text)) == Some(text@),
        text_option(None) == None::<Seq<char>>,
        text_result(Ok(text)) == Ok::<Seq<char>, Seq<char>>(text@),
        text_result(Err(text)) == Err::<Seq<char>, Seq<char>>(text@),
{
}

/// A part stands at a position where each of its characters stands at its place behind it.
pub proof fn occurrences_match_each_character(text: Seq<char>, part: Seq<char>, i: int)
    ensures
        occurs_at(text, part, i) <==> {
            &&& 0 <= i
            &&& i + part.len() <= text.len()
            &&& forall|k: int| 0 <= k < part.len() ==> #[trigger] part[k] == text[i + k]
        },
{
    if 0 <= i && i + part.len() <= text.len() {
        let here = text.subrange(i, i + part.len());
        if forall|k: int| 0 <= k < part.len() ==> #[trigger] part[k] == text[i + k] {
            assert(here =~= part);
        }
        if here == part {
            assert forall|k: int| 0 <= k < part.len() implies #[trigger] part[k] == text[i + k] by {
                assert(here[k] == text[i + k]);
            }
        }
    }
}

/// The text with pieces, and a separator between each two of them.
pub open spec fn joined(parts: Seq<Seq<char>>, separator: Seq<char>) -> Seq<char>
    decreases parts.len(),
{
    if parts.len() == 0 {
        seq![]
    } else if parts.len() == 1 {
        parts[0]
    } else {
        parts[0] + separator + joined(parts.skip(1), separator)
    }
}

/// The part stands nowhere in the text.
pub open spec fn nowhere(text: Seq<char>, part: Seq<char>) -> bool {
    forall|j: int| 0 <= j ==> !#[trigger] occurs_at(text, part, j)
}

/// The separator stands behind the piece, and nowhere before.
pub open spec fn ends_at_first(piece: Seq<char>, separator: Seq<char>) -> bool {
    forall|j: int| 0 <= j < piece.len() ==> !#[trigger] occurs_at(piece + separator, separator, j)
}

/// The pieces of a text, with the separator between each two of them, are the text. Every piece goes up
/// to the first separator behind it, and there is none in the last.
pub proof fn pieces_make_up_the_text(text: Seq<char>, separator: Seq<char>)
    requires
        separator.len() > 0,
    ensures
        pieces(text, separator).len() >= 1,
        joined(pieces(text, separator), separator) == text,
        nowhere(pieces(text, separator).last(), separator),
        forall|i: int|
            0 <= i < pieces(text, separator).len() - 1 ==> ends_at_first(
                #[trigger] pieces(text, separator)[i],
                separator,
            ),
    decreases text.len(),
{
    let parts = pieces(text, separator);
    lemma_first_at(text, separator, 0);
    match first_at(text, separator, 0) {
        None => {
            assert(parts =~= seq![text]);
        },
        Some(k) => {
            let head = text.take(k);
            let rest = text.skip(k + separator.len());
            pieces_make_up_the_text(rest, separator);
            let others = pieces(rest, separator);
            assert(parts == seq![head] + others);
            assert(parts.skip(1) =~= others);
            assert(text =~= head + separator + rest);
            assert(parts.last() == others.last());
            assert forall|j: int| 0 <= j < head.len() implies !#[trigger] occurs_at(
                head + separator,
                separator,
                j,
            ) by {
                if occurs_at(head + separator, separator, j) {
                    assert((head + separator).subrange(j, j + separator.len()) =~= text.subrange(
                        j,
                        j + separator.len(),
                    ));
                    assert(occurs_at(text, separator, j));
                }
            }
            assert forall|i: int| 0 <= i < parts.len() - 1 implies ends_at_first(
                #[trigger] parts[i],
                separator,
            ) by {
                if i > 0 {
                    assert(parts[i] == others[i - 1]);
                }
            }
        },
    }
}

/// The first piece is what stands before the first separator.
pub proof fn first_piece_goes_to_the_separator(text: Seq<char>, separator: Seq<char>) -> (rest: Seq<
    char,
>)
    requires
        separator.len() > 0,
    ensures
        text == pieces(text, separator)[0] + rest,
        rest.len() == 0 || occurs_at(rest, separator, 0),
        nowhere(pieces(text, separator)[0], separator),
{
    lemma_first_at(text, separator, 0);
    let head = pieces(text, separator)[0];
    let rest = text.skip(head.len() as int);
    assert(text =~= head + rest);
    if let Some(k) = first_at(text, separator, 0) {
        assert(rest.subrange(0, separator.len() as int) =~= text.subrange(k, k + separator.len()));
        assert forall|j: int| 0 <= j implies !#[trigger] occurs_at(head, separator, j) by {
            if occurs_at(head, separator, j) {
                assert(head.subrange(j, j + separator.len()) =~= text.subrange(
                    j,
                    j + separator.len(),
                ));
                assert(occurs_at(text, separator, j));
            }
        }
    }
    rest
}

/// The last piece is what stands behind the last separator.
pub proof fn last_piece_starts_at_the_separator(text: Seq<char>, separator: Seq<char>) -> (before: Seq<
    char,
>)
    requires
        separator.len() > 0,
    ensures
        text == before + pieces(text, separator).last(),
        before.len() == 0 || occurs_at(before, separator, before.len() - separator.len()),
        nowhere(pieces(text, separator).last(), separator),
    decreases text.len(),
{
    lemma_first_at(text, separator, 0);
    match first_at(text, separator, 0) {
        None => {
            let before = Seq::<char>::empty();
            assert(text =~= before + text);
            before
        },
        Some(k) => {
            let cut = k + separator.len();
            let rest = text.skip(cut);
            let inner = last_piece_starts_at_the_separator(rest, separator);
            pieces_make_up_the_text(rest, separator);
            let before = text.take(cut) + inner;
            assert(text =~= text.take(cut) + rest);
            assert(text =~= before + pieces(rest, separator).last());
            if inner.len() == 0 {
                assert(before.subrange(k, cut) =~= text.subrange(k, cut));
            } else {
                let at = inner.len() - separator.len();
                assert(before.subrange(cut + at, cut + at + separator.len()) =~= inner.subrange(
                    at,
                    at + separator.len(),
                ));
            }
            before
        },
    }
}

/// A digit is worth its place: a row of digits denotes ten times what it denotes without its last digit,
/// and that digit.
pub proof fn digits_have_their_places(digits: Seq<char>, d: int)
    requires
        0 <= d <= 9,
    ensures
        number(Seq::<char>::empty()) == 0,
        number(digits.push(digit(d))) == 10 * number(digits) + d,
        is_digit(digit(d)),
        digit(d) as int == '0' as int + d,
{
    assert(digits.push(digit(d)).drop_last() =~= digits);
}

/// The ten digits are the characters from `0` to `9`.
pub proof fn digits_are_ten(c: char)
    ensures
        is_digit(c) <==> '0' as int <= c as int <= '9' as int,
{
}

/// A number is written without zeros before it.
pub proof fn decimals_start_with_no_zero(n: nat)
    ensures
        n > 0 ==> decimal(n)[0] != '0',
        n == 0 ==> decimal(n) == seq!['0'],
    decreases n,
{
    if n >= 10 {
        decimals_start_with_no_zero(n / 10);
        lemma_decimal_is_read_back(n / 10);
        assert(decimal(n)[0] == decimal(n / 10)[0]);
    }
}

/// What is written in decimal notation, with a sign or without one, is read as the number, and nothing
/// else than digits behind a sign is read.
pub proof fn signed_decimals_are_read(n: nat, text: Seq<char>)
    ensures
        n <= i32::MAX ==> i32_number(decimal(n)) == Some(n as int),
        n <= i32::MAX ==> i32_number(seq!['+'] + decimal(n)) == Some(n as int),
        n <= 0x8000_0000 ==> i32_number(seq!['-'] + decimal(n)) == Some(-(n as int)),
        n > i32::MAX ==> i32_number(decimal(n)) is None,
        i32_number(text) is Some ==> text.len() > 0 && forall|i: int|
            1 <= i < text.len() ==> is_digit(#[trigger] text[i]),
{
    lemma_decimal_is_read_back(n);
    assert(is_digit(decimal(n)[0]));
    assert((seq!['+'] + decimal(n)).skip(1) =~= decimal(n));
    assert((seq!['-'] + decimal(n)).skip(1) =~= decimal(n));
    assert forall|i: int| i32_number(text) is Some && 1 <= i < text.len() implies is_digit(
        #[trigger] text[i],
    ) by {
        if text[0] == '+' || text[0] == '-' {
            assert(text.skip(1)[i - 1] == text[i]);
        }
    }
}

} // verus!
