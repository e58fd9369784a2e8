use kanban_io::file_name::make_file_system_safe_name;
use kanban_io::password::{
    check_for_safe_password, judge_password, password_fault_message, PasswordStatus,
};
use kanban_io::text::{chars_of, parse_i32, push_decimal, split};

#[test]
fn text_is_split_at_every_separator() {
    assert_eq!(split("a<<<>>>b<<<>>>c", "<<<>>>"), vec!["a", "b", "c"]);
    assert_eq!(split("", ","), vec![""]);
    assert_eq!(split(",a,,b,", ","), vec!["", "a", "", "b", ""]);
    assert_eq!(split("aaa", "aa"), vec!["", "a"]);
    assert_eq!(split("größe_v2", "_v"), vec!["größe", "2"]);
}

#[test]
fn split_agrees_with_the_standard_library() {
    for (text, separator) in [
        ("kanban_01-02-2024_v3.json", "_"),
        ("kanban_01-02-2024_v3.json", "_v"),
        ("https://x/#access_token=abc&expires_in=1", "access_token="),
        ("<<<<>>>>>>", "<<<>>>"),
        ("ééé", "é"),
    ] {
        let expected: Vec<String> = text.split(separator).map(String::from).collect();
        assert_eq!(split(text, separator), expected);
    }
}

#[test]
fn characters_are_listed_in_order() {
    assert_eq!(chars_of("aé😢"), vec!['a', 'é', '😢']);
    assert!(chars_of("").is_empty());
}

#[test]
fn decimals_are_appended() {
    let mut text = String::from("v");
    push_decimal(&mut text, 0);
    push_decimal(&mut text, 1204);
    push_decimal(&mut text, u64::MAX);
    assert_eq!(text, "v0120418446744073709551615");
}

#[test]
fn numbers_are_read_as_the_standard_library_reads_them() {
    for text in [
        "0", "7", "+7", "-7", "007", "2147483647", "2147483648", "-2147483648", "-2147483649", "",
        "+", "-", "1a", " 1", "99999999999999999999", "--1", "٣",
    ] {
        assert_eq!(parse_i32(text), text.parse::<i32>().ok(), "{}", text);
    }
}

#[test]
fn unsafe_characters_are_left_out_of_names() {
    assert_eq!(make_file_system_safe_name("My Board: a/b\\c*d?e\"f<g>h|i"), "MyBoardabcdefghi");
    assert_eq!(make_file_system_safe_name("plain-name_1.json"), "plain-name_1.json");
    assert_eq!(make_file_system_safe_name("/ : *"), "");
    assert_eq!(make_file_system_safe_name(""), "");
    assert_eq!(make_file_system_safe_name("tab\tstays é"), "tab\tstaysé");
}

#[test]
fn a_safe_name_is_kept() {
    let once = make_file_system_safe_name("a b:c");
    assert_eq!(make_file_system_safe_name(&once), once);
}

#[test]
fn a_strong_password_is_strong() {
    assert_eq!(check_for_safe_password("Abcdef1!"), PasswordStatus::Strong);
    assert_eq!(
        check_for_safe_password("Abcdefghijklmnopqrstuvwxyz12345!"),
        PasswordStatus::Strong
    );
    assert_eq!(check_for_safe_password("ÀàÀàÀà²!"), PasswordStatus::Strong);
}

#[test]
fn each_fault_of_a_password_is_found() {
    assert_eq!(check_for_safe_password("Abc1!"), PasswordStatus::TooShort);
    assert_eq!(check_for_safe_password("abcdef1!"), PasswordStatus::MissingUppercase);
    assert_eq!(check_for_safe_password("ABCDEF1!"), PasswordStatus::MissingLowercase);
    assert_eq!(check_for_safe_password("Abcdefg!"), PasswordStatus::MissingNumber);
    assert_eq!(check_for_safe_password("Abcdefg1"), PasswordStatus::MissingSpecialChar);
    assert_eq!(
        check_for_safe_password("Abcdefghijklmnopqrstuvwxyz123456!"),
        PasswordStatus::TooLong
    );
}

#[test]
fn the_last_fault_that_is_looked_for_counts() {
    assert_eq!(check_for_safe_password(""), PasswordStatus::MissingSpecialChar);
    assert_eq!(check_for_safe_password("!"), PasswordStatus::MissingNumber);
    assert_eq!(check_for_safe_password("1!"), PasswordStatus::MissingLowercase);
    assert_eq!(check_for_safe_password("a1!"), PasswordStatus::MissingUppercase);
    assert_eq!(
        check_for_safe_password("aaaaaaaaaaaaaaaaaaaaaaaaaaaaaaaaa"),
        PasswordStatus::TooLong
    );
    // The length counts bytes: seventeen letters of two bytes each are too long.
    assert_eq!(check_for_safe_password("ééééééééééééééééé"), PasswordStatus::TooLong);
}

#[test]
fn passwords_are_judged_by_what_they_hold() {
    assert_eq!(judge_password(8, true, true, true, true), PasswordStatus::Strong);
    assert_eq!(judge_password(7, true, true, true, true), PasswordStatus::TooShort);
    assert_eq!(judge_password(33, false, false, false, false), PasswordStatus::TooLong);
    assert_eq!(judge_password(32, false, true, true, true), PasswordStatus::MissingUppercase);
    assert_eq!(judge_password(32, true, false, true, true), PasswordStatus::MissingLowercase);
    assert_eq!(judge_password(32, true, true, false, true), PasswordStatus::MissingNumber);
    assert_eq!(judge_password(32, true, true, true, false), PasswordStatus::MissingSpecialChar);
}

#[test]
fn faults_of_passwords_are_named() {
    let named = |status| password_fault_message(status);
    assert_eq!(named(PasswordStatus::Strong), None);
    assert_eq!(
        named(PasswordStatus::MissingLowercase).unwrap(),
        "Password must contain atleast one lowercase character"
    );
    assert_eq!(
        named(PasswordStatus::MissingUppercase).unwrap(),
        "Password must contain atleast one uppercase character"
    );
    assert_eq!(
        named(PasswordStatus::MissingNumber).unwrap(),
        "Password must contain atleast one number"
    );
    assert_eq!(
        named(PasswordStatus::MissingSpecialChar).unwrap(),
        "Password must contain atleast one special character"
    );
    assert_eq!(
        named(PasswordStatus::TooShort).unwrap(),
        "Password must be atleast 8 characters long"
    );
    assert_eq!(
        named(PasswordStatus::TooLong).unwrap(),
        "Password must be atmost 32 characters long"
    );
}
