//! What a password must hold.

use crate::constants::{MAX_PASSWORD_LENGTH, MIN_PASSWORD_LENGTH};
use crate::text::{chars_of, decimal, push_decimal};
use vstd::prelude::*;
use vstd::string::*;
use vstd::utf8::*;

verus! {

/// The character is an uppercase letter of Unicode.
pub uninterp spec fn char_is_uppercase(c: char) -> bool;

/// The character is a lowercase letter of Unicode.
pub uninterp spec fn char_is_lowercase(c: char) -> bool;

/// The character is a number of Unicode.
pub uninterp spec fn char_is_numeric(c: char) -> bool;

/// `char::is_uppercase` looks the character up in the tables of Unicode. Among the ASCII
/// characters it holds of `A` to `Z`.
pub assume_specification[ char::is_uppercase ](c: char) -> (upper: bool)
    ensures
        upper == char_is_uppercase(c),
        c <= '\x7f' ==> upper == ('A' <= c <= 'Z'),
;

/// `char::is_lowercase` looks the character up in the tables of Unicode. Among the ASCII
/// characters it holds of `a` to `z`.
pub assume_specification[ char::is_lowercase ](c: char) -> (lower: bool)
    ensures
        lower == char_is_lowercase(c),
        c <= '\x7f' ==> lower == ('a' <= c <= 'z'),
;

/// `char::is_numeric` looks the character up in the tables of Unicode. Among the ASCII characters
/// it holds of `0` to `9`.
pub assume_specification[ char::is_numeric ](c: char) -> (numeric: bool)
    ensures
        numeric == char_is_numeric(c),
        c <= '\x7f' ==> numeric == ('0' <= c <= '9'),
;

/// The character is one of the ASCII punctuation characters.
pub open spec fn is_punctuation(c: char) -> bool {
    ||| '!' <= c <= '/'
    ||| ':' <= c <= '@'
    ||| '[' <= c <= '`'
    ||| '{' <= c <= '~'
}

/// Tells whether the character is one of the ASCII punctuation characters.
fn is_special(c: char) -> (special: bool)
    ensures
        special == is_punctuation(c),
{
    ('!' <= c && c <= '/') || (':' <= c && c <= '@') || ('[' <= c && c <= '`') || ('{' <= c && c
        <= '~')
}

/// How good a password is, or what it lacks.
#[derive(Clone, Copy, Debug, PartialEq, Eq, Structural)]
pub enum PasswordStatus {
    Strong,
    MissingUppercase,
    MissingLowercase,
    MissingNumber,
    MissingSpecialChar,
    TooShort,
    TooLong,
}

/// Some character of the text has the property.
pub open spec fn some_char(text: Seq<char>, property: spec_fn(char) -> bool) -> bool {
    exists|i: int| 0 <= i < text.len() && property(#[trigger] text[i])
}

/// The verdict on a password of which the length in bytes and the sorts of characters are known. Of
/// several faults the one that is named first here counts.
pub open spec fn verdict(
    length: nat,
    upper: bool,
    lower: bool,
    numeric: bool,
    special: bool,
) -> PasswordStatus {
    if length > MAX_PASSWORD_LENGTH {
        PasswordStatus::TooLong
    } else if !special {
        PasswordStatus::MissingSpecialChar
    } else if !numeric {
        PasswordStatus::MissingNumber
    } else if !lower {
        PasswordStatus::MissingLowercase
    } else if !upper {
        PasswordStatus::MissingUppercase
    } else if length < MIN_PASSWORD_LENGTH {
        PasswordStatus::TooShort
    } else {
        PasswordStatus::Strong
    }
}

/// The verdict on a password.
pub open spec fn password_status(password: Seq<char>) -> PasswordStatus {
    verdict(
        encode_utf8(password).len(),
        some_char(password, |c: char| char_is_uppercase(c)),
        some_char(password, |c: char| char_is_lowercase(c)),
        some_char(password, |c: char| char_is_numeric(c)),
        some_char(password, |c: char| is_punctuation(c)),
    )
}

/// The verdict on a password of ASCII characters.
pub open spec fn ascii_password_status(password: Seq<char>) -> PasswordStatus {
    verdict(
        password.len(),
        some_char(password, |c: char| 'A' <= c <= 'Z'),
        some_char(password, |c: char| 'a' <= c <= 'z'),
        some_char(password, |c: char| '0' <= c <= '9'),
        some_char(password, |c: char| is_punctuation(c)),
    )
}

/// The sorts of an ASCII character are the ones that its code says.
pub open spec fn ascii_sorts(c: char) -> bool {
    c <= '\x7f' ==> {
        &&& char_is_uppercase(c) == ('A' <= c <= 'Z')
        &&& char_is_lowercase(c) == ('a' <= c <= 'z')
        &&& char_is_numeric(c) == ('0' <= c <= '9')
    }
}

/// Of a password of ASCII characters, the two verdicts are the same.
proof fn lemma_ascii_status(password: Seq<char>)
    requires
        is_ascii_chars(password),
        forall|i: int| 0 <= i < password.len() ==> ascii_sorts(#[trigger] password[i]),
    ensures
        password_status(password) == ascii_password_status(password),
{
    is_ascii_chars_encode_utf8(password);
    let upper = |c: char| char_is_uppercase(c);
    let lower = |c: char| char_is_lowercase(c);
    let numeric = |c: char| char_is_numeric(c);
    assert forall|i: int| 0 <= i < password.len() implies ascii_sorts(#[trigger] password[i])
        && password[i] <= '\x7f' by {}
    assert(some_char(password, upper) == some_char(password, |c: char| 'A' <= c <= 'Z'));
    assert(some_char(password, lower) == some_char(password, |c: char| 'a' <= c <= 'z'));
    assert(some_char(password, numeric) == some_char(password, |c: char| '0' <= c <= '9'));
}

/// Judges a password by its length in bytes and the sorts of characters in it.
pub fn judge_password(length: usize, upper: bool, lower: bool, numeric: bool, special: bool) -> (status:
    PasswordStatus)
    ensures
        status == verdict(length as nat, upper, lower, numeric, special),
{
    if length > MAX_PASSWORD_LENGTH {
        PasswordStatus::TooLong
    } else if !special {
        PasswordStatus::MissingSpecialChar
    } else if !numeric {
        PasswordStatus::MissingNumber
    } else if !lower {
        PasswordStatus::MissingLowercase
    } else if !upper {
        PasswordStatus::MissingUppercase
    } else if length < MIN_PASSWORD_LENGTH {
        PasswordStatus::TooShort
    } else {
        PasswordStatus::Strong
    }
}

/// Judges a password. Of a password of ASCII characters it is known what counts as which sort.
pub fn check_for_safe_password(check_password: &str) -> (status: PasswordStatus)
    ensures
        status == password_status(check_password@),
        is_ascii_chars(check_password@) ==> status == ascii_password_status(check_password@),
{
    let chars = chars_of(check_password);
    let length: usize = check_password.as_bytes().len();
    let mut upper: bool = false;
    let mut lower: bool = false;
    let mut numeric: bool = false;
    let mut special: bool = false;
    let mut i: usize = 0;
    while i < chars.len()
        invariant
            chars@ == check_password@,
            i <= chars@.len(),
            upper == (exists|j: int| 0 <= j < i && char_is_uppercase(#[trigger] chars@[j])),
            lower == (exists|j: int| 0 <= j < i && char_is_lowercase(#[trigger] chars@[j])),
            numeric == (exists|j: int| 0 <= j < i && char_is_numeric(#[trigger] chars@[j])),
            special == (exists|j: int| 0 <= j < i && is_punctuation(#[trigger] chars@[j])),
            forall|j: int| 0 <= j < i ==> ascii_sorts(#[trigger] chars@[j]),
        decreases chars@.len() - i,
    {
        let c = chars[i];
        if c.is_uppercase() {
            upper = true;
        }
        if c.is_lowercase() {
            lower = true;
        }
        if c.is_numeric() {
            numeric = true;
        }
        if is_special(c) {
            special = true;
        }
        i = i + 1;
    }
    proof {
        if is_ascii_chars(check_password@) {
            lemma_ascii_status(check_password@);
        }
    }
    judge_password(length, upper, lower, numeric, special)
}

/// A strong password has a length within the limits and a character of each sort, and only such a
/// password is strong.
pub proof fn strong_passwords(password: Seq<char>)
    ensures
        password_status(password) == PasswordStatus::Strong <==> {
            &&& MIN_PASSWORD_LENGTH <= encode_utf8(password).len() <= MAX_PASSWORD_LENGTH
            &&& some_char(password, |c: char| char_is_uppercase(c))
            &&& some_char(password, |c: char| char_is_lowercase(c))
            &&& some_char(password, |c: char| char_is_numeric(c))
            &&& some_char(password, |c: char| is_punctuation(c))
        },
{
}

/// What the user is told of a password that is not strong.
pub open spec fn password_fault(status: PasswordStatus) -> Option<Seq<char>> {
    match status {
        PasswordStatus::Strong => None,
        PasswordStatus::MissingLowercase => Some(
            "Password must contain atleast one lowercase character"@,
        ),
        PasswordStatus::MissingUppercase => Some(
            "Password must contain atleast one uppercase character"@,
        ),
        PasswordStatus::MissingNumber => Some("Password must contain atleast one number"@),
        PasswordStatus::MissingSpecialChar => Some(
            "Password must contain atleast one special character"@,
        ),
        PasswordStatus::TooShort => Some(
            "Password must be atleast "@ + decimal(MIN_PASSWORD_LENGTH as nat)
                + " characters long"@,
        ),
        PasswordStatus::TooLong => Some(
            "Password must be atmost "@ + decimal(MAX_PASSWORD_LENGTH as nat) + " characters long"@,
        ),
    }
}

/// The message that names the fault of a password.
pub fn password_fault_message(status: PasswordStatus) -> (message: Option<String>)
    ensures
        match message {
            Some(m) => password_fault(status) == Some(m@),
            None => password_fault(status) is None,
        },
{
    match status {
        PasswordStatus::Strong => None,
        PasswordStatus::MissingLowercase => Some(
            "Password must contain atleast one lowercase character".to_owned(),
        ),
        PasswordStatus::MissingUppercase => Some(
            "Password must contain atleast one uppercase character".to_owned(),
        ),
        PasswordStatus::MissingNumber => Some(
            "Password must contain atleast one number".to_owned(),
        ),
        PasswordStatus::MissingSpecialChar => Some(
            "Password must contain atleast one special character".to_owned(),
        ),
        PasswordStatus::TooShort => {
            let mut message = "Password must be atleast ".to_owned();
            push_decimal(&mut message, MIN_PASSWORD_LENGTH as u64);
            message.append(" characters long");
            Some(message)
        },
        PasswordStatus::TooLong => {
            let mut message = "Password must be atmost ".to_owned();
            push_decimal(&mut message, MAX_PASSWORD_LENGTH as u64);
            message.append(" characters long");
            Some(message)
        },
    }
}

/// Which fault is found: too many bytes, and then no character that is punctuation, none that is a
/// number, no lowercase letter, no uppercase letter, and at last too few bytes.
pub proof fn faults_come_in_order(password: Seq<char>)
    ensures
        ({
            let bytes = encode_utf8(password).len();
            let status = password_status(password);
            let special = exists|i: int| 0 <= i < password.len() && is_punctuation(#[trigger] password[i]);
            let numeric = exists|i: int| 0 <= i < password.len() && char_is_numeric(#[trigger] password[i]);
            let lower = exists|i: int| 0 <= i < password.len() && char_is_lowercase(#[trigger] password[i]);
            let upper = exists|i: int| 0 <= i < password.len() && char_is_uppercase(#[trigger] password[i]);
            let fits = bytes <= MAX_PASSWORD_LENGTH;
            &&& status == PasswordStatus::TooLong <==> !fits
            &&& status == PasswordStatus::MissingSpecialChar <==> fits && !special
            &&& status == PasswordStatus::MissingNumber <==> fits && special && !numeric
            &&& status == PasswordStatus::MissingLowercase <==> fits && special && numeric && !lower
            &&& status == PasswordStatus::MissingUppercase <==> fits && special && numeric && lower
                && !upper
            &&& status == PasswordStatus::TooShort <==> fits && special && numeric && lower && upper
                && bytes < MIN_PASSWORD_LENGTH
        }),
{
    assert(some_char(password, |c: char| is_punctuation(c)) == (exists|i: int|
        0 <= i < password.len() && is_punctuation(#[trigger] password[i])));
    assert(some_char(password, |c: char| char_is_numeric(c)) == (exists|i: int|
        0 <= i < password.len() && char_is_numeric(#[trigger] password[i])));
    assert(some_char(password, |c: char| char_is_lowercase(c)) == (exists|i: int|
        0 <= i < password.len() && char_is_lowercase(#[trigger] password[i])));
    assert(some_char(password, |c: char| char_is_uppercase(c)) == (exists|i: int|
        0 <= i < password.len() && char_is_uppercase(#[trigger] password[i])));
}

/// A password of ASCII characters is strong where it has eight to thirty-two of them, among them a
/// capital and a small letter, a digit and a punctuation character, and nowhere else.
pub proof fn strong_ascii_passwords(password: Seq<char>)
    ensures
        ascii_password_status(password) == PasswordStatus::Strong <==> {
            &&& 8 <= password.len() <= 32
            &&& exists|i: int| 0 <= i < password.len() && 'A' <= #[trigger] password[i] <= 'Z'
            &&& exists|i: int| 0 <= i < password.len() && 'a' <= #[trigger] password[i] <= 'z'
            &&& exists|i: int| 0 <= i < password.len() && '0' <= #[trigger] password[i] <= '9'
            &&& exists|i: int| 0 <= i < password.len() && is_punctuation(#[trigger] password[i])
        },
{
    assert(some_char(password, |c: char| is_punctuation(c)) == (exists|i: int|
        0 <= i < password.len() && is_punctuation(#[trigger] password[i])));
    assert(some_char(password, |c: char| '0' <= c <= '9') == (exists|i: int|
        0 <= i < password.len() && '0' <= #[trigger] password[i] <= '9'));
    assert(some_char(password, |c: char| 'a' <= c <= 'z') == (exists|i: int|
        0 <= i < password.len() && 'a' <= #[trigger] password[i] <= 'z'));
    assert(some_char(password, |c: char| 'A' <= c <= 'Z') == (exists|i: int|
        0 <= i < password.len() && 'A' <= #[trigger] password[i] <= 'Z'));
}

/// Punctuation is every printable ASCII character that is no letter, no digit and no space.
pub proof fn punctuation_is_what_is_left(c: char)
    ensures
        is_punctuation(c) <==> {
            &&& ' ' < c <= '~'
            &&& !('A' <= c <= 'Z')
            &&& !('a' <= c <= 'z')
            &&& !('0' <= c <= '9')
        },
{
}

} // verus!
