//! The file that keeps the access token of the account between two runs.

use crate::base64_text::{
    base64_bytes, base64_decode, base64_encode, base64_text, in_base64_alphabet,
    lemma_base64_alphabet, lemma_base64_round_trip,
};
use crate::cipher::{
    aes_decrypt, aes_encrypt, aes_opened, aes_sealed, random_nonce, KEY_LENGTH,
    MAX_PLAINTEXT_LENGTH, NONCE_LENGTH,
};
use crate::constants::ACCESS_TOKEN_SEPARATOR;
use crate::text::{
    free_of, lemma_first_piece, lemma_one_piece, pieces, split, text_option, text_result, views,
};
use vstd::prelude::*;
use vstd::string::*;
use vstd::utf8::*;

verus! {

/// The nonce, the encrypted token and the mail address, each in base64, with separators between.
pub open spec fn token_file(nonce: Seq<u8>, sealed: Seq<u8>, email_id: Seq<char>) -> Seq<char> {
    base64_text(nonce) + ACCESS_TOKEN_SEPARATOR@ + (base64_text(sealed) + ACCESS_TOKEN_SEPARATOR@
        + base64_text(encode_utf8(email_id)))
}

/// What is written to the token file, or the reason why nothing is.
pub open spec fn written_token(
    access_token: Seq<char>,
    email_id: Seq<char>,
    key: Option<Seq<u8>>,
    nonce: Seq<u8>,
) -> Result<Seq<char>, Seq<char>> {
    match key {
        None => Err("Error getting encryption key"@),
        Some(k) => if encode_utf8(access_token).len() > MAX_PLAINTEXT_LENGTH {
            Err("Error encrypting access token"@)
        } else {
            Ok(token_file(nonce, aes_sealed(k, nonce, encode_utf8(access_token)), email_id))
        },
    }
}

/// The access token and the mail address that the token file holds, or the reason why they cannot
/// be had. Without `file` the file could not be read, without `key` there is no key.
pub open spec fn read_token(file: Option<Seq<char>>, key: Option<Seq<u8>>) -> Result<
    (Seq<char>, Seq<char>),
    Seq<char>,
> {
    match file {
        None => Err("Error reading access token file"@),
        Some(text) => {
            let parts = pieces(text, ACCESS_TOKEN_SEPARATOR@);
            if !well_formed_parts(parts) {
                Err("Error reading access token file"@)
            } else {
                match key {
                    None => Err("Error getting encryption key"@),
                    Some(k) => match aes_opened(
                        k,
                        base64_bytes(parts[0])->0,
                        base64_bytes(parts[1])->0,
                    ) {
                        None => Err("Error decrypting access token"@),
                        Some(plain) => if valid_utf8(plain) {
                            Ok((decode_utf8(plain), decode_utf8(base64_bytes(parts[2])->0)))
                        } else {
                            Err("Error converting decrypted access token to string"@)
                        },
                    },
                }
            }
        },
    }
}

/// What is read of the last login: the directory of the settings must be known first.
pub open spec fn last_token(
    config_dir_known: bool,
    file: Option<Seq<char>>,
    key: Option<Seq<u8>>,
) -> Result<(Seq<char>, Seq<char>), Seq<char>> {
    if config_dir_known {
        read_token(file, key)
    } else {
        Err("Error getting config directory"@)
    }
}

/// There are three parts, each base64, and the last one holds text.
pub open spec fn well_formed_parts(parts: Seq<Seq<char>>) -> bool {
    &&& parts.len() == 3
    &&& base64_bytes(parts[0]) is Some
    &&& base64_bytes(parts[1]) is Some
    &&& base64_bytes(parts[2]) is Some
    &&& valid_utf8(base64_bytes(parts[2])->0)
}

/// The nonce in the file and the key have the lengths that the cipher takes, as far as the reading
/// gets to them.
pub open spec fn token_file_fits(file: Option<Seq<char>>, key: Option<Seq<u8>>) -> bool {
    file matches Some(text) ==> {
        let parts = pieces(text, ACCESS_TOKEN_SEPARATOR@);
        &&& parts.len() == 3 ==> (base64_bytes(parts[0]) matches Some(n) ==> n.len()
            == NONCE_LENGTH)
        &&& well_formed_parts(parts) ==> (key matches Some(k) ==> k.len() == KEY_LENGTH)
    }
}

/// The views of what was read from the token file.
pub open spec fn read_view(read: Result<(String, String), String>) -> Result<
    (Seq<char>, Seq<char>),
    Seq<char>,
> {
    match read {
        Ok((access_token, email_id)) => Ok((access_token@, email_id@)),
        Err(message) => Err(message@),
    }
}

/// The bytes, where there are any.
pub open spec fn bytes_option(bytes: Option<Vec<u8>>) -> Option<Seq<u8>> {
    match bytes {
        Some(b) => Some(b@),
        None => None,
    }
}

/// The parts of a token file are the three texts that it was made of.
proof fn lemma_token_file_parts(nonce: Seq<u8>, sealed: Seq<u8>, email_id: Seq<char>)
    ensures
        pieces(token_file(nonce, sealed, email_id), ACCESS_TOKEN_SEPARATOR@) == seq![
            base64_text(nonce),
            base64_text(sealed),
            base64_text(encode_utf8(email_id)),
        ],
        base64_bytes(base64_text(nonce)) == Some(nonce),
        base64_bytes(base64_text(sealed)) == Some(sealed),
        base64_bytes(base64_text(encode_utf8(email_id))) == Some(encode_utf8(email_id)),
        valid_utf8(encode_utf8(email_id)),
{
    let separator = ACCESS_TOKEN_SEPARATOR@;
    reveal_strlit("<<<>>>");
    let email = encode_utf8(email_id);
    lemma_base64_free(nonce);
    lemma_base64_free(sealed);
    lemma_base64_free(email);
    lemma_one_piece(base64_text(email), separator);
    lemma_first_piece(base64_text(sealed), separator, base64_text(email));
    lemma_first_piece(
        base64_text(nonce),
        separator,
        base64_text(sealed) + separator + base64_text(email),
    );
    let parts = pieces(token_file(nonce, sealed, email_id), separator);
    assert(parts =~= seq![base64_text(nonce), base64_text(sealed), base64_text(email)]);
    lemma_base64_round_trip(nonce);
    lemma_base64_round_trip(sealed);
    lemma_base64_round_trip(email);
    encode_utf8_valid_utf8(email_id);
}

/// The token file that holds a token and a mail address gives them both, where the cipher opens what it
/// sealed.
proof fn lemma_token_file_is_read_back(
    access_token: Seq<char>,
    email_id: Seq<char>,
    key: Seq<u8>,
    nonce: Seq<u8>,
    sealed: Seq<u8>,
)
    requires
        aes_opened(key, nonce, sealed) == Some(encode_utf8(access_token)),
    ensures
        read_token(Some(token_file(nonce, sealed, email_id)), Some(key)) == Ok::<_, Seq<char>>(
            (access_token, email_id),
        ),
{
    lemma_token_file_parts(nonce, sealed, email_id);
    encode_utf8_decode_utf8(email_id);
    encode_utf8_valid_utf8(access_token);
    encode_utf8_decode_utf8(access_token);
}

/// Base64 never holds the first character of the separator.
proof fn lemma_base64_free(bytes: Seq<u8>)
    ensures
        free_of(base64_text(bytes), ACCESS_TOKEN_SEPARATOR@[0]),
{
    reveal_strlit("<<<>>>");
    lemma_base64_alphabet(bytes);
    assert forall|i: int| 0 <= i < base64_text(bytes).len() implies #[trigger] base64_text(bytes)[i]
        != ACCESS_TOKEN_SEPARATOR@[0] by {
        assert(in_base64_alphabet(base64_text(bytes)[i]));
    }
}

/// Puts the token file together, with a given nonce. What comes out is read back as the same token
/// and mail address.
pub fn seal_access_token(
    access_token: &str,
    email_id: &str,
    key: &Option<Vec<u8>>,
    nonce: &[u8],
) -> (file: Result<String, String>)
    requires
        key matches Some(k) ==> k@.len() == KEY_LENGTH,
        nonce@.len() == NONCE_LENGTH,
    ensures
        text_result(file) == written_token(access_token@, email_id@, bytes_option(*key), nonce@),
        file matches Ok(text) ==> read_token(Some(text@), bytes_option(*key)) == Ok::<_, Seq<char>>(
            (access_token@, email_id@),
        ),
{
    let encryption_key = match key {
        None => return Err("Error getting encryption key".to_owned()),
        Some(k) => k,
    };
    match aes_encrypt(encryption_key.as_slice(), nonce, access_token.as_bytes()) {
        Err(_) => Err("Error encrypting access token".to_owned()),
        Ok(sealed) => {
            let mut tail = base64_encode(sealed.as_slice());
            tail.append(ACCESS_TOKEN_SEPARATOR);
            let encoded_email_id = base64_encode(email_id.as_bytes());
            tail.append(encoded_email_id.as_str());
            let mut file = base64_encode(nonce);
            file.append(ACCESS_TOKEN_SEPARATOR);
            file.append(tail.as_str());
            proof {
                lemma_token_file_is_read_back(
                    access_token@,
                    email_id@,
                    encryption_key@,
                    nonce@,
                    sealed@,
                );
            }
            Ok(file)
        },
    }
}

/// What is to be written to the token file, with a fresh nonce. Whatever the nonce is, the file is
/// read back as the same token and mail address.
pub fn save_access_token_to_disk(
    access_token: &str,
    email_id: &str,
    key: &Option<Vec<u8>>,
) -> (file: Result<String, String>)
    requires
        key matches Some(k) ==> k@.len() == KEY_LENGTH,
    ensures
        exists|nonce: Seq<u8>|
            nonce.len() == NONCE_LENGTH && text_result(file) == #[trigger] written_token(
                access_token@,
                email_id@,
                bytes_option(*key),
                nonce,
            ),
        file matches Ok(text) ==> read_token(Some(text@), bytes_option(*key)) == Ok::<_, Seq<char>>(
            (access_token@, email_id@),
        ),
{
    let nonce = random_nonce();
    seal_access_token(access_token, email_id, key, nonce.as_slice())
}

/// What is to be done next to write the token file.
#[derive(Clone, Copy, Debug, PartialEq, Eq, Structural)]
pub enum TokenStep {
    /// Find the directory of the settings.
    Locate,
    /// Look whether there is a token file already.
    CheckFile,
    /// Remove the old token file.
    RemoveFile,
    /// Put the token file together and write it.
    WriteFile,
    /// Nothing.
    Written,
}

/// What follows a step, given whether the answer to it was yes.
pub open spec fn token_step(step: TokenStep, yes: bool) -> Result<TokenStep, Seq<char>> {
    match (step, yes) {
        (TokenStep::Locate, true) => Ok(TokenStep::CheckFile),
        (TokenStep::Locate, false) => Err("Error getting config directory"@),
        (TokenStep::CheckFile, true) => Ok(TokenStep::RemoveFile),
        (TokenStep::CheckFile, false) => Ok(TokenStep::WriteFile),
        (TokenStep::RemoveFile, true) => Ok(TokenStep::WriteFile),
        (TokenStep::RemoveFile, false) => Err("Error deleting access token file"@),
        (TokenStep::WriteFile, true) => Ok(TokenStep::Written),
        (TokenStep::WriteFile, false) => Err("Error creating access token file"@),
        (TokenStep::Written, _) => Ok(TokenStep::Written),
    }
}

/// What follows a step of writing the token file. `yes` says that the directory was found, that there
/// is a token file, or that it could be removed or written.
pub fn next_token_step(step: TokenStep, yes: bool) -> (next: Result<TokenStep, String>)
    ensures
        match next {
            Ok(n) => token_step(step, yes) == Ok::<_, Seq<char>>(n),
            Err(message) => token_step(step, yes) == Err::<TokenStep, _>(message@),
        },
{
    match step {
        TokenStep::Locate => if yes {
            Ok(TokenStep::CheckFile)
        } else {
            Err("Error getting config directory".to_owned())
        },
        TokenStep::CheckFile => if yes {
            Ok(TokenStep::RemoveFile)
        } else {
            Ok(TokenStep::WriteFile)
        },
        TokenStep::RemoveFile => if yes {
            Ok(TokenStep::WriteFile)
        } else {
            Err("Error deleting access token file".to_owned())
        },
        TokenStep::WriteFile => if yes {
            Ok(TokenStep::Written)
        } else {
            Err("Error creating access token file".to_owned())
        },
        TokenStep::Written => Ok(TokenStep::Written),
    }
}

/// A token file is never written over: it is written where there was none, or after the old one was
/// removed.
pub proof fn token_file_is_not_written_over(step: TokenStep, yes: bool)
    ensures
        token_step(step, yes) == Ok::<_, Seq<char>>(TokenStep::WriteFile) <==> {
            ||| step == TokenStep::CheckFile && !yes
            ||| step == TokenStep::RemoveFile && yes
        },
{
}

/// The access token and the mail address in the token file. `config_dir_known` says that the directory
/// of the settings was found, `file` is what the token file holds, or nothing where it could not be
/// read, and `key` is the encryption key, if there is one.
pub fn get_access_token_from_disk(
    config_dir_known: bool,
    file: Option<String>,
    key: &Option<Vec<u8>>,
) -> (read: Result<(String, String), String>)
    requires
        config_dir_known ==> token_file_fits(text_option(file), bytes_option(*key)),
    ensures
        read_view(read) == last_token(config_dir_known, text_option(file), bytes_option(*key)),
{
    if !config_dir_known {
        return Err("Error getting config directory".to_owned());
    }
    let text = match file {
        None => return Err("Error reading access token file".to_owned()),
        Some(text) => text,
    };
    proof {
        reveal_strlit("<<<>>>");
    }
    let parts = split(text.as_str(), ACCESS_TOKEN_SEPARATOR);
    let ghost spec_parts = pieces(text@, ACCESS_TOKEN_SEPARATOR@);
    assert(views(parts@).len() == parts@.len());
    if parts.len() != 3 {
        return Err("Error reading access token file".to_owned());
    }
    assert(views(parts@)[0] == parts@[0]@);
    assert(views(parts@)[1] == parts@[1]@);
    assert(views(parts@)[2] == parts@[2]@);
    let nonce = match base64_decode(parts[0].as_str()) {
        None => return Err("Error reading access token file".to_owned()),
        Some(nonce) => nonce,
    };
    let sealed = match base64_decode(parts[1].as_str()) {
        None => return Err("Error reading access token file".to_owned()),
        Some(sealed) => sealed,
    };
    let email_id = match base64_decode(parts[2].as_str()) {
        None => return Err("Error reading access token file".to_owned()),
        Some(email_id) => email_id,
    };
    let email_id = match String::from_utf8(email_id) {
        Err(_) => return Err("Error reading access token file".to_owned()),
        Ok(email_id) => email_id,
    };
    let encryption_key = match key {
        None => return Err("Error getting encryption key".to_owned()),
        Some(k) => k,
    };
    match aes_decrypt(encryption_key.as_slice(), nonce.as_slice(), sealed.as_slice()) {
        Err(_) => Err("Error decrypting access token".to_owned()),
        Ok(plain) => match String::from_utf8(plain) {
            Err(_) => Err("Error converting decrypted access token to string".to_owned()),
            Ok(access_token) => Ok((access_token, email_id)),
        },
    }
}

/// Reads the token file where the nonce in it and the key have the lengths that the cipher takes.
pub fn try_get_access_token_from_disk(
    config_dir_known: bool,
    file: Option<String>,
    key: &Option<Vec<u8>>,
) -> (read: Option<Result<(String, String), String>>)
    ensures
        read is Some <==> (config_dir_known ==> token_file_fits(
            text_option(file),
            bytes_option(*key),
        )),
        read matches Some(r) ==> read_view(r) == last_token(
            config_dir_known,
            text_option(file),
            bytes_option(*key),
        ),
{
    if !config_dir_known {
        return Some(get_access_token_from_disk(false, file, key));
    }
    if let Some(text) = &file {
        proof {
            reveal_strlit("<<<>>>");
        }
        let parts = split(text.as_str(), ACCESS_TOKEN_SEPARATOR);
        assert(views(parts@).len() == parts@.len());
        if parts.len() == 3 {
            assert(views(parts@)[0] == parts@[0]@);
            assert(views(parts@)[1] == parts@[1]@);
            assert(views(parts@)[2] == parts@[2]@);
            if let Some(nonce) = base64_decode(parts[0].as_str()) {
                if nonce.len() != NONCE_LENGTH {
                    return None;
                }
                let key_fits = match key {
                    Some(k) => k.len() == KEY_LENGTH,
                    None => true,
                };
                if !key_fits && base64_decode(parts[1].as_str()).is_some() {
                    if let Some(email_id) = base64_decode(parts[2].as_str()) {
                        if String::from_utf8(email_id).is_ok() {
                            return None;
                        }
                    }
                }
            }
        }
    }
    Some(get_access_token_from_disk(true, file, key))
}

/// The token file holds the nonce, the encrypted token and the mail address, each in base64, with
/// `<<<>>>` between each two of them.
pub proof fn token_files_have_three_parts(
    access_token: Seq<char>,
    email_id: Seq<char>,
    key: Seq<u8>,
    nonce: Seq<u8>,
)
    requires
        encode_utf8(access_token).len() <= MAX_PLAINTEXT_LENGTH,
    ensures
        written_token(access_token, email_id, Some(key), nonce) == Ok::<_, Seq<char>>(
            base64_text(nonce) + "<<<>>>"@ + (base64_text(
                aes_sealed(key, nonce, encode_utf8(access_token)),
            ) + "<<<>>>"@ + base64_text(encode_utf8(email_id))),
        ),
        written_token(access_token, email_id, None, nonce) is Err,
{
}

/// Of a token file the token that the cipher finds in it and the mail address are read whole.
pub proof fn token_files_are_read_whole(
    access_token: Seq<char>,
    email_id: Seq<char>,
    key: Seq<u8>,
    nonce: Seq<u8>,
    sealed: Seq<u8>,
)
    requires
        aes_opened(key, nonce, sealed) == Some(encode_utf8(access_token)),
    ensures
        last_token(
            true,
            Some(
                base64_text(nonce) + "<<<>>>"@ + (base64_text(sealed) + "<<<>>>"@ + base64_text(
                    encode_utf8(email_id),
                )),
            ),
            Some(key),
        ) == Ok::<_, Seq<char>>((access_token, email_id)),
{
    lemma_token_file_is_read_back(access_token, email_id, key, nonce, sealed);
}

/// What is read of a token file is what its parts say, and without the directory of the settings, the
/// file or the key nothing is read.
pub proof fn only_whole_token_files_are_read(
    file: Option<Seq<char>>,
    key: Option<Seq<u8>>,
    access_token: Seq<char>,
    email_id: Seq<char>,
)
    ensures
        last_token(false, file, key) is Err,
        file is None ==> last_token(true, file, key) is Err,
        key is None ==> last_token(true, file, key) is Err,
        last_token(true, file, key) == Ok::<_, Seq<char>>((access_token, email_id)) ==> {
            let parts = pieces(file->0, "<<<>>>"@);
            &&& file is Some
            &&& key is Some
            &&& parts.len() == 3
            &&& base64_bytes(parts[0]) is Some
            &&& base64_bytes(parts[1]) is Some
            &&& base64_bytes(parts[2]) == Some(encode_utf8(email_id))
            &&& aes_opened(key->0, base64_bytes(parts[0])->0, base64_bytes(parts[1])->0) == Some(
                encode_utf8(access_token),
            )
        },
{
    if let (Some(text), Some(k)) = (file, key) {
        let parts = pieces(text, "<<<>>>"@);
        if well_formed_parts(parts) {
            decode_utf8_encode_utf8(base64_bytes(parts[2])->0);
            if let Some(plain) = aes_opened(
                k,
                base64_bytes(parts[0])->0,
                base64_bytes(parts[1])->0,
            ) {
                if valid_utf8(plain) {
                    decode_utf8_encode_utf8(plain);
                }
            }
        }
    }
}

/// What was read is seen as it is.
pub proof fn tokens_are_seen_as_they_are(token: String, email: String, key: Vec<u8>)
    ensures
        read_view(Ok((token, email))) == Ok::<_, Seq<char>>((token@, email@)),
        read_view(Err(token)) == Err::<(Seq<char>, Seq<char>), _>(token@),
        bytes_option(Some(key)) == Some(key@),
        bytes_option(None) is None,
{
}

/// A token file of three parts is tried exactly where its nonce has twelve bytes and the key, if there is
/// one, thirty-two; and what is no token file is never tried.
pub proof fn token_files_are_tried_with_fitting_keys(
    nonce: Seq<u8>,
    sealed: Seq<u8>,
    email_id: Seq<char>,
    key: Seq<u8>,
    text: Seq<char>,
)
    ensures
        ({
            let file = base64_text(nonce) + "<<<>>>"@ + (base64_text(sealed) + "<<<>>>"@ + base64_text(
                encode_utf8(email_id),
            ));
            &&& token_file_fits(Some(file), Some(key)) <==> nonce.len() == 12 && key.len() == 32
            &&& token_file_fits(Some(file), None) <==> nonce.len() == 12
        }),
        token_file_fits(None, Some(key)),
        pieces(text, "<<<>>>"@).len() != 3 ==> token_file_fits(Some(text), Some(key)),
{
    lemma_token_file_parts(nonce, sealed, email_id);
}

} // verus!
