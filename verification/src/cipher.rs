//! The encryption of cloud saves with AES-256-GCM, and the key that belongs to the user.

use aes_gcm::aead::generic_array::GenericArray;
use aes_gcm::aead::{Aead, OsRng};
use aes_gcm::{AeadCore, Aes256Gcm, Key, KeyInit};
use crate::base64_text::{
    base64_bytes, base64_decode, base64_encode, base64_text, lemma_base64_round_trip,
};
use crate::text::{text_option, text_result};
use vstd::prelude::*;
use vstd::string::*;
use vstd::utf8::*;

verus! {

/// The length of a key, in bytes.
pub const KEY_LENGTH: usize = 32;

/// The length of a nonce, in bytes.
pub const NONCE_LENGTH: usize = 12;

/// The greatest number of bytes that are encrypted at once.
pub const MAX_PLAINTEXT_LENGTH: u64 = 0x10_0000_0000;

/// The ciphertext, tag included, that AES-256-GCM makes of a plaintext without associated data.
pub uninterp spec fn aes_sealed(key: Seq<u8>, nonce: Seq<u8>, plaintext: Seq<u8>) -> Seq<u8>;

/// The plaintext that AES-256-GCM finds in a ciphertext, if the tag fits.
pub uninterp spec fn aes_opened(key: Seq<u8>, nonce: Seq<u8>, ciphertext: Seq<u8>) -> Option<
    Seq<u8>,
>;

/// The error of the cipher, which carries no details.
#[verifier::external_type_specification]
#[verifier::external_body]
pub struct ExCipherError(aes_gcm::Error);

/// `Aead::encrypt` of `Aes256Gcm`. It fails only for a plaintext that is too long. The ciphertext
/// is sixteen bytes longer than the plaintext, and `Aead::decrypt` with the same key and nonce
/// finds the plaintext in it.
#[verifier::external_body]
pub(crate) fn aes_encrypt(key: &[u8], nonce: &[u8], plaintext: &[u8]) -> (sealed: Result<
    Vec<u8>,
    aes_gcm::Error,
>)
    requires
        key@.len() == KEY_LENGTH,
        nonce@.len() == NONCE_LENGTH,
    ensures
        sealed is Ok <==> plaintext@.len() <= MAX_PLAINTEXT_LENGTH,
        sealed matches Ok(c) ==> {
            &&& c@ == aes_sealed(key@, nonce@, plaintext@)
            &&& c@.len() == plaintext@.len() + 16
            &&& aes_opened(key@, nonce@, c@) == Some(plaintext@)
        },
{
    let cipher = Aes256Gcm::new(Key::<Aes256Gcm>::from_slice(key));
    cipher.encrypt(GenericArray::from_slice(nonce), plaintext)
}

/// `Aead::decrypt` of `Aes256Gcm`. It fails where the tag does not fit.
#[verifier::external_body]
pub(crate) fn aes_decrypt(key: &[u8], nonce: &[u8], ciphertext: &[u8]) -> (opened: Result<
    Vec<u8>,
    aes_gcm::Error,
>)
    requires
        key@.len() == KEY_LENGTH,
        nonce@.len() == NONCE_LENGTH,
    ensures
        match opened {
            Ok(p) => aes_opened(key@, nonce@, ciphertext@) == Some(p@),
            Err(_) => aes_opened(key@, nonce@, ciphertext@) is None,
        },
{
    let cipher = Aes256Gcm::new(Key::<Aes256Gcm>::from_slice(key));
    cipher.decrypt(GenericArray::from_slice(nonce), ciphertext)
}

/// `AeadCore::generate_nonce` of `Aes256Gcm` draws a nonce from the random numbers of the
/// operating system. Only its length is known beforehand.
#[verifier::external_body]
pub(crate) fn random_nonce() -> (nonce: Vec<u8>)
    ensures
        nonce@.len() == NONCE_LENGTH,
{
    Aes256Gcm::generate_nonce(&mut OsRng).to_vec()
}

/// Draws a new key: `KeyInit::generate_key` of `Aes256Gcm`, with the random numbers of the
/// operating system. Only its length is known beforehand.
#[verifier::external_body]
pub fn generate_new_encryption_key() -> (key: Vec<u8>)
    ensures
        key@.len() == KEY_LENGTH,
{
    Aes256Gcm::generate_key(&mut OsRng).to_vec()
}

/// The reason why bytes are not UTF-8.
#[verifier::external_type_specification]
#[verifier::external_body]
pub struct ExFromUtf8Error(std::string::FromUtf8Error);

/// `String::from_utf8` reads bytes as UTF-8, and fails where they are not.
pub assume_specification[ String::from_utf8 ](bytes: Vec<u8>) -> (text: Result<
    String,
    std::string::FromUtf8Error,
>)
    ensures
        match text {
            Ok(s) => valid_utf8(bytes@) && s@ == decode_utf8(bytes@),
            Err(_) => !valid_utf8(bytes@),
        },
;

/// The encrypted save and its nonce, as they are stored, or the reason why there is none.
pub open spec fn sealed_save(json: Seq<char>, key: Seq<u8>, nonce: Seq<u8>) -> Result<
    (Seq<char>, Seq<char>),
    Seq<char>,
> {
    if encode_utf8(json).len() > MAX_PLAINTEXT_LENGTH {
        Err("Error encrypting boards"@)
    } else {
        Ok((base64_text(aes_sealed(key, nonce, encode_utf8(json))), base64_text(nonce)))
    }
}

/// The boards, as JSON, that a stored save holds, or the reason why they cannot be had.
pub open spec fn opened_save(encrypted: Seq<char>, key: Seq<u8>, nonce: Seq<char>) -> Result<
    Seq<char>,
    Seq<char>,
> {
    match (base64_bytes(encrypted), base64_bytes(nonce)) {
        (None, _) => Err("Error decoding boards"@),
        (_, None) => Err("Error decoding nonce"@),
        (Some(data), Some(n)) => match aes_opened(key, n, data) {
            None => Err("Error decrypting boards"@),
            Some(plain) => if valid_utf8(plain) {
                Ok(decode_utf8(plain))
            } else {
                Err("Error converting decrypted boards to string"@)
            },
        },
    }
}

/// The views of the two texts of a stored save.
pub open spec fn sealed_view(sealed: Result<(String, String), String>) -> Result<
    (Seq<char>, Seq<char>),
    Seq<char>,
> {
    match sealed {
        Ok((data, nonce)) => Ok((data@, nonce@)),
        Err(message) => Err(message@),
    }
}

/// Encrypts boards, given as JSON, with a key and a nonce. What comes out can be opened again with
/// the same key.
pub fn seal_save(boards_json: &str, key: &[u8], nonce: &[u8]) -> (sealed: Result<
    (String, String),
    String,
>)
    requires
        key@.len() == KEY_LENGTH,
        nonce@.len() == NONCE_LENGTH,
    ensures
        sealed_view(sealed) == sealed_save(boards_json@, key@, nonce@),
        sealed matches Ok((data, n)) ==> opened_save(data@, key@, n@) == Ok::<_, Seq<char>>(
            boards_json@,
        ),
        sealed matches Ok((data, n)) ==> {
            &&& base64_bytes(n@) == Some(nonce@)
            &&& base64_bytes(data@) matches Some(ciphertext)
            &&& aes_opened(key@, nonce@, ciphertext) == Some(encode_utf8(boards_json@))
        },
{
    let nonce_encoded = base64_encode(nonce);
    match aes_encrypt(key, nonce, boards_json.as_bytes()) {
        Err(_) => Err("Error encrypting boards".to_owned()),
        Ok(encrypted_boards) => {
            proof {
                lemma_base64_round_trip(nonce@);
                lemma_base64_round_trip(encrypted_boards@);
                encode_utf8_valid_utf8(boards_json@);
                encode_utf8_decode_utf8(boards_json@);
            }
            Ok((base64_encode(encrypted_boards.as_slice()), nonce_encoded))
        },
    }
}

/// Encrypts boards with a key and a fresh nonce. `boards_json` is the boards as JSON, or nothing
/// where they could not be written as JSON.
pub fn encrypt_save(boards_json: Option<String>, key: &[u8]) -> (sealed: Result<
    (String, String),
    String,
>)
    requires
        boards_json is Some ==> key@.len() == KEY_LENGTH,
    ensures
        boards_json is None ==> sealed_view(sealed) == Err::<(Seq<char>, Seq<char>), _>(
            "Error serializing boards"@,
        ),
        boards_json matches Some(json) ==> exists|nonce: Seq<u8>|
            nonce.len() == NONCE_LENGTH && sealed_view(sealed) == #[trigger] sealed_save(
                json@,
                key@,
                nonce,
            ),
        boards_json matches Some(json) ==> (sealed matches Ok((data, n)) ==> opened_save(
            data@,
            key@,
            n@,
        ) == Ok::<_, Seq<char>>(json@)),
{
    match boards_json {
        None => Err("Error serializing boards".to_owned()),
        Some(json) => {
            let nonce = random_nonce();
            seal_save(json.as_str(), key, nonce.as_slice())
        },
    }
}

/// The save can be tried with the key: the parts have the lengths that the cipher takes.
pub open spec fn save_fits(encrypted: Seq<char>, key: Seq<u8>, nonce: Seq<char>) -> bool {
    base64_bytes(encrypted) is Some ==> {
        &&& key.len() == KEY_LENGTH
        &&& base64_bytes(nonce) matches Some(n) ==> n.len() == NONCE_LENGTH
    }
}

/// Opens a stored save and gives the boards as JSON.
pub fn decrypt_save(encrypted_boards: &str, key: &[u8], encoded_nonce: &str) -> (opened: Result<
    String,
    String,
>)
    requires
        save_fits(encrypted_boards@, key@, encoded_nonce@),
    ensures
        text_result(opened) == opened_save(encrypted_boards@, key@, encoded_nonce@),
{
    let data = match base64_decode(encrypted_boards) {
        None => return Err("Error decoding boards".to_owned()),
        Some(data) => data,
    };
    let nonce = match base64_decode(encoded_nonce) {
        None => return Err("Error decoding nonce".to_owned()),
        Some(nonce) => nonce,
    };
    match aes_decrypt(key, nonce.as_slice(), data.as_slice()) {
        Err(_) => Err("Error decrypting boards".to_owned()),
        Ok(plain) => match String::from_utf8(plain) {
            Err(_) => Err("Error converting decrypted boards to string".to_owned()),
            Ok(json) => Ok(json),
        },
    }
}

/// Opens a stored save where its parts have the lengths that the cipher takes.
pub fn try_decrypt_save(encrypted_boards: &str, key: &[u8], encoded_nonce: &str) -> (opened: Option<
    Result<String, String>,
>)
    ensures
        opened is Some <==> save_fits(encrypted_boards@, key@, encoded_nonce@),
        opened matches Some(r) ==> text_result(r) == opened_save(
            encrypted_boards@,
            key@,
            encoded_nonce@,
        ),
{
    if base64_decode(encrypted_boards).is_some() {
        if key.len() != KEY_LENGTH {
            return None;
        }
        if let Some(nonce) = base64_decode(encoded_nonce) {
            if nonce.len() != NONCE_LENGTH {
                return None;
            }
        }
    }
    Some(decrypt_save(encrypted_boards, key, encoded_nonce))
}

/// Why there is no encryption key.
#[derive(Clone, Copy, Debug, PartialEq, Eq, Structural)]
pub enum KeyError {
    /// The key file could not be read.
    Unreadable,
    /// The key is not base64.
    Malformed,
}

/// What is written to the key file.
pub fn save_user_encryption_key(key: &[u8]) -> (file: String)
    ensures
        file@ == base64_text(key@),
{
    base64_encode(key)
}

/// Draws a new key and gives what is to be written to the key file. Whatever the key is, it is read back
/// from the file.
pub fn new_key_file() -> (file: String)
    ensures
        exists|key: Seq<u8>|
            key.len() == KEY_LENGTH && file@ == #[trigger] base64_text(key) && user_key(
                None,
                Some(file@),
            ) == Ok::<_, KeyError>(key),
{
    let key = generate_new_encryption_key();
    proof {
        saved_key_is_read_back(key@, None);
    }
    save_user_encryption_key(key.as_slice())
}

/// The key that the user gave as an argument, and otherwise the one in the key file.
pub open spec fn user_key(argument: Option<Seq<char>>, file: Option<Seq<char>>) -> Result<
    Seq<u8>,
    KeyError,
> {
    let text = if argument is Some {
        argument
    } else {
        file
    };
    match text {
        None => Err(KeyError::Unreadable),
        Some(t) => match base64_bytes(t) {
            None => Err(KeyError::Malformed),
            Some(key) => Ok(key),
        },
    }
}

/// The encryption key of the user. `file` is what the key file holds, or nothing where it could
/// not be read; it does not matter where the key comes as an argument.
pub fn get_user_encryption_key(
    encryption_key_from_arguments: Option<String>,
    file: Option<String>,
) -> (key: Result<Vec<u8>, KeyError>)
    ensures
        match key {
            Ok(k) => user_key(
                text_option(encryption_key_from_arguments),
                text_option(file),
            ) == Ok::<_, KeyError>(k@),
            Err(e) => user_key(
                text_option(encryption_key_from_arguments),
                text_option(file),
            ) == Err::<Seq<u8>, _>(e),
        },
{
    let text = match encryption_key_from_arguments {
        Some(text) => text,
        None => match file {
            Some(text) => text,
            None => return Err(KeyError::Unreadable),
        },
    };
    match base64_decode(text.as_str()) {
        Some(key) => Ok(key),
        None => Err(KeyError::Malformed),
    }
}

/// The key that was saved is the key that is read back, from the key file and as an argument.
pub proof fn saved_key_is_read_back(key: Seq<u8>, file: Option<Seq<char>>)
    ensures
        user_key(None, Some(base64_text(key))) == Ok::<_, KeyError>(key),
        user_key(Some(base64_text(key)), file) == Ok::<_, KeyError>(key),
{
    lemma_base64_round_trip(key);
}

/// A save is opened as the text that the cipher finds in it, and as nothing else.
pub proof fn saves_are_opened_whole(
    encrypted: Seq<char>,
    key: Seq<u8>,
    nonce: Seq<char>,
    json: Seq<char>,
)
    ensures
        opened_save(encrypted, key, nonce) == Ok::<_, Seq<char>>(json) <==> {
            &&& base64_bytes(encrypted) is Some
            &&& base64_bytes(nonce) is Some
            &&& aes_opened(key, base64_bytes(nonce)->0, base64_bytes(encrypted)->0) == Some(
                encode_utf8(json),
            )
        },
{
    encode_utf8_valid_utf8(json);
    encode_utf8_decode_utf8(json);
    if let (Some(data), Some(n)) = (base64_bytes(encrypted), base64_bytes(nonce)) {
        if let Some(plain) = aes_opened(key, n, data) {
            if valid_utf8(plain) {
                decode_utf8_encode_utf8(plain);
            }
        }
    }
}

/// A save is stored as the base64 of what the cipher makes of the whole text, with the base64 of the
/// nonce, wherever the text is not too long.
pub proof fn saves_are_sealed_whole(json: Seq<char>, key: Seq<u8>, nonce: Seq<u8>)
    ensures
        encode_utf8(json).len() <= MAX_PLAINTEXT_LENGTH <==> sealed_save(json, key, nonce) is Ok,
        sealed_save(json, key, nonce) matches Ok((data, n)) ==> {
            &&& base64_bytes(data) == Some(aes_sealed(key, nonce, encode_utf8(json)))
            &&& base64_bytes(n) == Some(nonce)
        },
{
    lemma_base64_round_trip(nonce);
    lemma_base64_round_trip(aes_sealed(key, nonce, encode_utf8(json)));
}

/// A key that is given as an argument decides alone: the key file does not matter then, even where the
/// argument is no key. Otherwise the key file decides.
pub proof fn the_argument_decides_alone(
    argument: Seq<char>,
    file: Option<Seq<char>>,
    other: Option<Seq<char>>,
    text: Seq<char>,
)
    ensures
        user_key(Some(argument), file) == user_key(Some(argument), other),
        user_key(Some(argument), file) == user_key(None, Some(argument)),
        base64_bytes(text) matches Some(key) ==> user_key(None, Some(text)) == Ok::<_, KeyError>(key),
        base64_bytes(text) is None ==> user_key(None, Some(text)) == Err::<Seq<u8>, _>(
            KeyError::Malformed,
        ),
        user_key(None, None) == Err::<Seq<u8>, _>(KeyError::Unreadable),
{
}

/// The two texts of a stored save are seen as they are.
pub proof fn sealed_texts_are_seen_as_they_are(data: String, nonce: String)
    ensures
        sealed_view(Ok((data, nonce))) == Ok::<_, Seq<char>>((data@, nonce@)),
        sealed_view(Err(data)) == Err::<(Seq<char>, Seq<char>), _>(data@),
{
}

/// A save in base64 is tried exactly where the key has thirty-two bytes and the nonce twelve, and what is
/// no base64 needs no key.
pub proof fn saves_are_tried_with_fitting_keys(data: Seq<u8>, key: Seq<u8>, nonce: Seq<u8>, text: Seq<char>)
    ensures
        save_fits(base64_text(data), key, base64_text(nonce)) <==> key.len() == 32 && nonce.len()
            == 12,
        base64_bytes(text) is None ==> save_fits(text, key, base64_text(nonce)),
        base64_bytes(text) is None ==> (save_fits(base64_text(data), key, text) <==> key.len() == 32),
{
    lemma_base64_round_trip(data);
    lemma_base64_round_trip(nonce);
}

} // verus!
