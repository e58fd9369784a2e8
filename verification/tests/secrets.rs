use aes_gcm::aead::generic_array::GenericArray;
use aes_gcm::aead::Aead;
use aes_gcm::{Aes256Gcm, Key, KeyInit};
use base64::Engine;
use kanban_io::access_token::{
    get_access_token_from_disk, next_token_step, save_access_token_to_disk, seal_access_token,
    try_get_access_token_from_disk, TokenStep,
};
use kanban_io::base64_text::base64_decode;
use kanban_io::cipher::{
    decrypt_save, encrypt_save, generate_new_encryption_key, get_user_encryption_key, new_key_file,
    save_user_encryption_key, seal_save, try_decrypt_save, KeyError,
};

const KEY: [u8; 32] = [7; 32];
const NONCE: [u8; 12] = [9; 12];

fn text(bytes: &[u8]) -> String {
    base64::engine::general_purpose::URL_SAFE_NO_PAD.encode(bytes)
}

fn encrypted(plain: &[u8]) -> Vec<u8> {
    let cipher = Aes256Gcm::new(Key::<Aes256Gcm>::from_slice(&KEY));
    cipher.encrypt(GenericArray::from_slice(&NONCE), plain).unwrap()
}

#[test]
fn keys_are_written_in_url_safe_base64() {
    assert_eq!(save_user_encryption_key(&[]), "");
    assert_eq!(save_user_encryption_key(&[0xff]), "_w");
    assert_eq!(save_user_encryption_key(&[0xfb, 0xef]), "--8");
    assert_eq!(save_user_encryption_key(&[0, 16, 131, 16, 81, 135]), "ABCDEFGH");
}

#[test]
fn base64_is_read_back() {
    for length in 0..40u8 {
        let bytes: Vec<u8> = (0..length).map(|i| i.wrapping_mul(89)).collect();
        assert_eq!(base64_decode(&save_user_encryption_key(&bytes)), Some(bytes));
    }
}

#[test]
fn only_canonical_base64_is_read() {
    assert_eq!(base64_decode("_w"), Some(vec![0xff]));
    assert_eq!(base64_decode("_w=="), None);
    assert_eq!(base64_decode("_x"), None);
    assert_eq!(base64_decode("/w"), None);
    assert_eq!(base64_decode("A"), None);
    assert_eq!(base64_decode("AA\n"), None);
    assert_eq!(base64_decode("é"), None);
}

#[test]
fn saves_are_sealed_with_aes_256_gcm() {
    let tag: Vec<u8> = vec![
        0x53, 0x0f, 0x8a, 0xfb, 0xc7, 0x45, 0x36, 0xb9, 0xa9, 0x63, 0xb4, 0xf1, 0xc4, 0xcb, 0x73,
        0x8b,
    ];
    let (data, nonce) = seal_save("", &[0; 32], &[0; 12]).unwrap();
    assert_eq!(base64_decode(&data), Some(tag));
    assert_eq!(nonce, "AAAAAAAAAAAAAAAA");
}

#[test]
fn sealed_saves_are_opened_again() {
    let (data, nonce) = seal_save("[{\"name\":\"é\"}]", &KEY, &NONCE).unwrap();
    assert_eq!(decrypt_save(&data, &KEY, &nonce), Ok("[{\"name\":\"é\"}]".to_string()));
    let (other, nonce) = encrypt_save(Some("[]".to_string()), &KEY).unwrap();
    assert_ne!(other, text(b"[]"));
    assert_eq!(decrypt_save(&other, &KEY, &nonce), Ok("[]".to_string()));
}

#[test]
fn boards_that_are_no_json_are_not_sealed() {
    assert_eq!(encrypt_save(None, &KEY), Err("Error serializing boards".to_string()));
}

#[test]
fn each_failure_to_open_a_save_is_named() {
    let (data, nonce) = seal_save("[]", &KEY, &NONCE).unwrap();
    assert_eq!(decrypt_save("?", &KEY, &nonce), Err("Error decoding boards".to_string()));
    assert_eq!(decrypt_save(&data, &KEY, "?"), Err("Error decoding nonce".to_string()));
    assert_eq!(
        decrypt_save(&data, &[8; 32], &nonce),
        Err("Error decrypting boards".to_string())
    );
    assert_eq!(
        decrypt_save(&text(&encrypted(&[0xff])), &KEY, &nonce),
        Err("Error converting decrypted boards to string".to_string())
    );
}

#[test]
fn saves_with_parts_of_wrong_length_are_not_tried() {
    let (data, nonce) = seal_save("[]", &KEY, &NONCE).unwrap();
    assert_eq!(try_decrypt_save(&data, &KEY, &nonce), Some(Ok("[]".to_string())));
    assert_eq!(try_decrypt_save(&data, &KEY[1..], &nonce), None);
    assert_eq!(try_decrypt_save(&data, &KEY, "AAAA"), None);
    assert_eq!(
        try_decrypt_save("?", &[], "AAAA"),
        Some(Err("Error decoding boards".to_string()))
    );
}

#[test]
fn new_keys_have_the_right_length() {
    let key = generate_new_encryption_key();
    assert_eq!(key.len(), 32);
    assert_ne!(key, generate_new_encryption_key());
}

#[test]
fn a_new_key_is_read_back_from_its_file() {
    let file = new_key_file();
    let key = get_user_encryption_key(None, Some(file.clone())).unwrap();
    assert_eq!(key.len(), 32);
    assert_eq!(save_user_encryption_key(&key), file);
    assert_eq!(get_user_encryption_key(Some(file), None), Ok(key));
}

#[test]
fn the_argument_comes_before_the_key_file() {
    let argument = Some(save_user_encryption_key(&[1, 2, 3]));
    let file = Some(save_user_encryption_key(&[4]));
    assert_eq!(get_user_encryption_key(argument, file.clone()), Ok(vec![1, 2, 3]));
    assert_eq!(get_user_encryption_key(None, file.clone()), Ok(vec![4]));
    assert_eq!(get_user_encryption_key(Some("?".into()), file), Err(KeyError::Malformed));
    assert_eq!(get_user_encryption_key(None, Some("?".into())), Err(KeyError::Malformed));
    assert_eq!(get_user_encryption_key(None, None), Err(KeyError::Unreadable));
}

#[test]
fn the_token_file_has_three_parts() {
    let file = seal_access_token("token", "a@b.c", &Some(KEY.to_vec()), &NONCE).unwrap();
    let expected = format!(
        "{}<<<>>>{}<<<>>>{}",
        text(&NONCE),
        text(&encrypted(b"token")),
        text(b"a@b.c")
    );
    assert_eq!(file, expected);
}

#[test]
fn the_token_file_is_read_back() {
    let key = Some(KEY.to_vec());
    let file = save_access_token_to_disk("tökén", "ä@b.c", &key).unwrap();
    assert_eq!(
        get_access_token_from_disk(true, Some(file.clone()), &key),
        Ok(("tökén".to_string(), "ä@b.c".to_string()))
    );
    assert!(!file.contains("tökén"));
}

#[test]
fn without_a_key_there_is_no_token_file() {
    assert_eq!(
        save_access_token_to_disk("t", "e", &None),
        Err("Error getting encryption key".to_string())
    );
}

#[test]
fn each_failure_to_read_the_token_file_is_named() {
    let key = Some(KEY.to_vec());
    let unreadable = Err("Error reading access token file".to_string());
    let n = text(&NONCE);
    let t = text(&encrypted(b"token"));
    let e = text(b"a@b.c");
    let join = |a: &str, b: &str, c: &str| Some(format!("{}<<<>>>{}<<<>>>{}", a, b, c));
    assert_eq!(get_access_token_from_disk(true, None, &key), unreadable);
    assert_eq!(get_access_token_from_disk(true, Some("a<<<>>>b".into()), &key), unreadable);
    assert_eq!(get_access_token_from_disk(true, join("?", &t, &e), &key), unreadable);
    assert_eq!(get_access_token_from_disk(true, join(&n, "?", &e), &key), unreadable);
    assert_eq!(get_access_token_from_disk(true, join(&n, &t, "?"), &key), unreadable);
    assert_eq!(get_access_token_from_disk(true, join(&n, &t, &text(&[0xff])), &key), unreadable);
    assert_eq!(
        get_access_token_from_disk(true, join(&n, &t, &e), &None),
        Err("Error getting encryption key".to_string())
    );
    assert_eq!(
        get_access_token_from_disk(true, join(&n, &t, &e), &Some(vec![1; 32])),
        Err("Error decrypting access token".to_string())
    );
    assert_eq!(
        get_access_token_from_disk(true, join(&n, &text(&encrypted(&[0xff])), &e), &key),
        Err("Error converting decrypted access token to string".to_string())
    );
    assert_eq!(
        get_access_token_from_disk(true, join(&n, &t, &e), &key),
        Ok(("token".to_string(), "a@b.c".to_string()))
    );
}

#[test]
fn token_files_with_parts_of_wrong_length_are_not_tried() {
    let key = Some(KEY.to_vec());
    let file = seal_access_token("token", "a@b.c", &key, &NONCE).unwrap();
    assert!(try_get_access_token_from_disk(true, Some(file.clone()), &key).unwrap().is_ok());
    assert_eq!(try_get_access_token_from_disk(true, Some(file.clone()), &Some(vec![1])), None);
    assert!(try_get_access_token_from_disk(true, Some(file), &None).unwrap().is_err());
    let short = format!("AAAA<<<>>>{}<<<>>>{}", text(&encrypted(b"t")), text(b"e"));
    assert_eq!(try_get_access_token_from_disk(true, Some(short), &key), None);
    assert!(try_get_access_token_from_disk(true, Some("x".into()), &Some(vec![1])).unwrap().is_err());
    assert!(try_get_access_token_from_disk(true, None, &key).unwrap().is_err());
}

#[test]
fn without_settings_there_is_no_last_login() {
    let key = Some(KEY.to_vec());
    let file = seal_access_token("token", "a@b.c", &key, &NONCE).unwrap();
    let unknown = Err("Error getting config directory".to_string());
    assert_eq!(get_access_token_from_disk(false, Some(file.clone()), &key), unknown);
    assert_eq!(get_access_token_from_disk(false, None, &None), unknown);
    assert_eq!(try_get_access_token_from_disk(false, Some(file), &Some(vec![1])), Some(unknown));
}

#[test]
fn an_old_token_file_is_removed_first() {
    assert_eq!(next_token_step(TokenStep::Locate, true), Ok(TokenStep::CheckFile));
    assert_eq!(next_token_step(TokenStep::CheckFile, true), Ok(TokenStep::RemoveFile));
    assert_eq!(next_token_step(TokenStep::CheckFile, false), Ok(TokenStep::WriteFile));
    assert_eq!(next_token_step(TokenStep::RemoveFile, true), Ok(TokenStep::WriteFile));
    assert_eq!(next_token_step(TokenStep::WriteFile, true), Ok(TokenStep::Written));
    assert_eq!(next_token_step(TokenStep::Written, false), Ok(TokenStep::Written));
    assert_eq!(
        next_token_step(TokenStep::Locate, false),
        Err("Error getting config directory".to_string())
    );
    assert_eq!(
        next_token_step(TokenStep::RemoveFile, false),
        Err("Error deleting access token file".to_string())
    );
    assert_eq!(
        next_token_step(TokenStep::WriteFile, false),
        Err("Error creating access token file".to_string())
    );
}
