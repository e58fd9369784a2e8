//! Bytes as text: base64 with the URL-safe alphabet and without padding.

use base64::Engine;
use vstd::prelude::*;

verus! {

/// The character that stands for six bits.
pub open spec fn base64_char(n: int) -> char {
    if n < 26 {
        (65 + n) as char
    } else if n < 52 {
        (71 + n) as char
    } else if n < 62 {
        (n - 4) as char
    } else if n == 62 {
        '-'
    } else {
        '_'
    }
}

/// Three bytes become four characters; one or two bytes at the end become two or three.
pub open spec fn base64_text(bytes: Seq<u8>) -> Seq<char>
    decreases bytes.len(),
{
    if bytes.len() == 0 {
        seq![]
    } else if bytes.len() == 1 {
        seq![base64_char((bytes[0] / 4) as int), base64_char(bytes[0] % 4 * 16)]
    } else if bytes.len() == 2 {
        seq![
            base64_char((bytes[0] / 4) as int),
            base64_char(bytes[0] % 4 * 16 + bytes[1] / 16),
            base64_char(bytes[1] % 16 * 4),
        ]
    } else {
        seq![
            base64_char((bytes[0] / 4) as int),
            base64_char(bytes[0] % 4 * 16 + bytes[1] / 16),
            base64_char(bytes[1] % 16 * 4 + bytes[2] / 64),
            base64_char((bytes[2] % 64) as int),
        ] + base64_text(bytes.skip(3))
    }
}

/// The bytes that the text stands for, if there are any.
pub open spec fn base64_bytes(text: Seq<char>) -> Option<Seq<u8>> {
    if exists|bytes: Seq<u8>| #[trigger] base64_text(bytes) == text {
        Some(choose|bytes: Seq<u8>| #[trigger] base64_text(bytes) == text)
    } else {
        None
    }
}

/// The character belongs to the alphabet.
pub open spec fn in_base64_alphabet(c: char) -> bool {
    ||| 'A' <= c <= 'Z'
    ||| 'a' <= c <= 'z'
    ||| '0' <= c <= '9'
    ||| c == '-'
    ||| c == '_'
}

/// Every text that stands for bytes is written in the alphabet.
pub proof fn lemma_base64_alphabet(bytes: Seq<u8>)
    ensures
        forall|i: int|
            0 <= i < base64_text(bytes).len() ==> in_base64_alphabet(
                #[trigger] base64_text(bytes)[i],
            ),
    decreases bytes.len(),
{
    if bytes.len() >= 3 {
        lemma_base64_alphabet(bytes.skip(3));
        let rest = base64_text(bytes.skip(3));
        assert forall|i: int| 0 <= i < base64_text(bytes).len() implies in_base64_alphabet(
            #[trigger] base64_text(bytes)[i],
        ) by {
            if i >= 4 {
                assert(base64_text(bytes)[i] == rest[i - 4]);
            }
        }
    }
}

/// Distinct groups of six bits have distinct characters.
proof fn lemma_base64_char_injective(m: int, n: int)
    requires
        0 <= m < 64,
        0 <= n < 64,
        base64_char(m) == base64_char(n),
    ensures
        m == n,
{
}

/// The length of the text grows with the number of bytes.
proof fn lemma_base64_len(bytes: Seq<u8>)
    ensures
        base64_text(bytes).len() == (4 * bytes.len() + 2) / 3,
    decreases bytes.len(),
{
    if bytes.len() >= 3 {
        lemma_base64_len(bytes.skip(3));
    }
}

/// No two byte strings have the same text.
pub proof fn lemma_base64_injective(a: Seq<u8>, b: Seq<u8>)
    requires
        base64_text(a) == base64_text(b),
    ensures
        a == b,
    decreases a.len(),
{
    lemma_base64_len(a);
    lemma_base64_len(b);
    let text = base64_text(a);
    if a.len() >= 1 {
        assert(text[0] == base64_char((a[0] / 4) as int) && text[0] == base64_char((b[0] / 4) as int));
        lemma_base64_char_injective((a[0] / 4) as int, (b[0] / 4) as int);
    }
    if a.len() == 1 {
        assert(text[1] == base64_char(a[0] % 4 * 16) && text[1] == base64_char(b[0] % 4 * 16));
        lemma_base64_char_injective(a[0] % 4 * 16, b[0] % 4 * 16);
    }
    if a.len() >= 2 {
        assert(text[1] == base64_char(a[0] % 4 * 16 + a[1] / 16));
        assert(text[1] == base64_char(b[0] % 4 * 16 + b[1] / 16));
        lemma_base64_char_injective(a[0] % 4 * 16 + a[1] / 16, b[0] % 4 * 16 + b[1] / 16);
    }
    if a.len() == 2 {
        assert(text[2] == base64_char(a[1] % 16 * 4) && text[2] == base64_char(b[1] % 16 * 4));
        lemma_base64_char_injective(a[1] % 16 * 4, b[1] % 16 * 4);
    }
    if a.len() >= 3 {
        assert(text[2] == base64_char(a[1] % 16 * 4 + a[2] / 64));
        assert(text[2] == base64_char(b[1] % 16 * 4 + b[2] / 64));
        lemma_base64_char_injective(a[1] % 16 * 4 + a[2] / 64, b[1] % 16 * 4 + b[2] / 64);
        assert(text[3] == base64_char((a[2] % 64) as int));
        assert(text[3] == base64_char((b[2] % 64) as int));
        lemma_base64_char_injective((a[2] % 64) as int, (b[2] % 64) as int);
        assert(text.skip(4) =~= base64_text(a.skip(3)));
        assert(text.skip(4) =~= base64_text(b.skip(3)));
        lemma_base64_injective(a.skip(3), b.skip(3));
        assert forall|i: int| 0 <= i < a.len() implies a[i] == b[i] by {
            if i >= 3 {
                assert(a[i] == a.skip(3)[i - 3]);
                assert(b[i] == b.skip(3)[i - 3]);
            }
        }
    }
    assert(a =~= b);
}

/// What bytes are written as is read back as the same bytes.
pub proof fn lemma_base64_round_trip(bytes: Seq<u8>)
    ensures
        base64_bytes(base64_text(bytes)) == Some(bytes),
{
    let text = base64_text(bytes);
    let found = choose|b: Seq<u8>| #[trigger] base64_text(b) == text;
    lemma_base64_injective(found, bytes);
}

/// What is read as bytes is written back as the same text.
pub proof fn read_bytes_are_written_back(text: Seq<char>)
    ensures
        base64_bytes(text) matches Some(bytes) ==> base64_text(bytes) == text,
{
}

/// The reason why a text is not base64.
#[verifier::external_type_specification]
#[verifier::external_body]
pub struct ExDecodeError(base64::DecodeError);

/// `Engine::encode` of the engine `URL_SAFE_NO_PAD` writes bytes in base64 with the URL-safe
/// alphabet and without padding.
#[verifier::external_body]
pub(crate) fn base64_encode(bytes: &[u8]) -> (text: String)
    ensures
        text@ == base64_text(bytes@),
{
    base64::engine::general_purpose::URL_SAFE_NO_PAD.encode(bytes)
}

/// `Engine::decode` of the engine `URL_SAFE_NO_PAD` reads back exactly what `Engine::encode`
/// writes. Padding, foreign characters, leftover bits and impossible lengths are errors.
#[verifier::external_body]
fn url_safe_decode(text: &str) -> (bytes: Result<Vec<u8>, base64::DecodeError>)
    ensures
        match bytes {
            Ok(b) => base64_text(b@) == text@,
            Err(_) => forall|b: Seq<u8>| #[trigger] base64_text(b) != text@,
        },
{
    base64::engine::general_purpose::URL_SAFE_NO_PAD.decode(text)
}

/// Reads base64 text.
pub fn base64_decode(text: &str) -> (bytes: Option<Vec<u8>>)
    ensures
        match bytes {
            Some(b) => base64_bytes(text@) == Some(b@),
            None => base64_bytes(text@) is None,
        },
{
    match url_safe_decode(text) {
        Ok(bytes) => {
            proof {
                lemma_base64_round_trip(bytes@);
            }
            Some(bytes)
        },
        Err(_) => None,
    }
}

} // verus!
