use kanban_io::saves::{
    find_latest_save, get_latest_save_file, has_existing_date, read_save_name,
    try_get_latest_save_file, SaveDate, SaveName,
};
use kanban_io::timestamp::{preview_date, try_preview_date};

fn date(year: i32, month: u32, day: u32) -> SaveDate {
    SaveDate { year, month, day }
}

fn latest(files: &[&str]) -> Result<String, String> {
    get_latest_save_file(&Some(files.iter().map(|f| f.to_string()).collect()))
}

#[test]
fn save_names_are_read() {
    assert_eq!(
        read_save_name("kanban_29-02-2024_v12.json"),
        SaveName { date: Some(date(2024, 2, 29)), version: 12 }
    );
    assert_eq!(
        read_save_name("kanban_01-01-0001_v0.json"),
        SaveName { date: Some(date(1, 1, 1)), version: 0 }
    );
}

#[test]
fn other_names_have_no_date() {
    let none = SaveName { date: None, version: -1 };
    assert_eq!(read_save_name("notes.txt"), none);
    assert_eq!(read_save_name("kanban_1-01-2024_v1.json"), none);
    assert_eq!(read_save_name("kanban_01-01-2024_v.json"), none);
    assert_eq!(read_save_name("xkanban_01-01-2024_v1.json"), none);
    assert_eq!(read_save_name("kanban_01-01-2024_v1\njson"), none);
}

#[test]
fn the_dot_before_the_type_may_be_anything() {
    assert_eq!(read_save_name("kanban_01-01-2024_v1.json.bak").version, 1);
    assert_eq!(
        read_save_name("kanban_01-01-2024_v1xjson"),
        SaveName { date: Some(date(2024, 1, 1)), version: -1 }
    );
}

#[test]
fn a_version_that_is_too_great_counts_as_none() {
    assert_eq!(read_save_name("kanban_01-01-2024_v2147483647.json").version, 2147483647);
    assert_eq!(read_save_name("kanban_01-01-2024_v2147483648.json").version, -1);
}

#[test]
fn dates_that_do_not_exist_are_found_out() {
    assert!(has_existing_date("kanban_29-02-2024_v1.json"));
    assert!(!has_existing_date("kanban_29-02-2023_v1.json"));
    assert!(!has_existing_date("kanban_00-01-2024_v1.json"));
    assert!(!has_existing_date("kanban_01-13-2024_v1.json"));
    assert!(has_existing_date("kanban_99-99-2024.json"));
    // Digits of other scripts match the pattern and are no date.
    assert!(!has_existing_date("kanban_٠١-٠١-٢٠٢٤_v1.json"));
}

#[test]
fn the_latest_save_is_the_one_of_the_latest_date_and_version() {
    assert_eq!(
        latest(&[
            "kanban_31-12-2023_v9.json",
            "kanban_02-01-2024_v2.json",
            "kanban_02-01-2024_v10.json",
            "kanban_01-01-2024_v99.json",
            "notes.txt",
        ]),
        Ok("kanban_02-01-2024_v10.json".to_string())
    );
    assert_eq!(
        latest(&["kanban_05-06-0007_v0.json", "kanban_04-06-0007_v1.json"]),
        Ok("kanban_05-06-0007_v0.json".to_string())
    );
}

#[test]
fn without_saves_there_is_no_latest_one() {
    let none = Err("No local save files found".to_string());
    assert_eq!(get_latest_save_file(&None), none);
    assert_eq!(latest(&[]), none);
    assert_eq!(latest(&["notes.txt"]), none);
    assert_eq!(latest(&["kanban_01-01-2024_v2147483648.json"]), none);
    // Another file counts with the first of January 1970, which is later than the save.
    assert_eq!(latest(&["kanban_31-12-1969_v1.json", "notes.txt"]), none);
}

#[test]
fn names_with_impossible_dates_stop_the_search() {
    let files = |list: &[&str]| Some(list.iter().map(|f| f.to_string()).collect());
    assert_eq!(
        try_get_latest_save_file(&files(&["kanban_01-01-2024_v1.json", "kanban_31-04-2024_v1.json"])),
        None
    );
    assert_eq!(
        try_get_latest_save_file(&files(&["kanban_01-01-2024_v1.json"])),
        Some(Ok("kanban_01-01-2024_v1.json".to_string()))
    );
    assert!(try_get_latest_save_file(&None).unwrap().is_err());
}

#[test]
fn the_latest_of_names_is_found() {
    let name = |d: Option<SaveDate>, version: i32| SaveName { date: d, version };
    assert_eq!(find_latest_save(&vec![]), None);
    assert_eq!(find_latest_save(&vec![name(None, -1)]), None);
    assert_eq!(
        find_latest_save(&vec![
            name(Some(date(2024, 1, 2)), 3),
            name(Some(date(2024, 2, 1)), 1),
            name(None, -1),
            name(Some(date(2024, 2, 1)), -1),
        ]),
        Some((date(2024, 2, 1), 1))
    );
    assert_eq!(find_latest_save(&vec![name(Some(date(2024, 2, 1)), -1)]), None);
    assert_eq!(
        find_latest_save(&vec![name(Some(date(2024, 2, 1)), -5)]),
        Some((date(2024, 2, 1), -5))
    );
}

#[test]
fn days_are_in_order() {
    assert!(date(2023, 12, 31).is_at_most(date(2024, 1, 1)));
    assert!(date(2024, 1, 31).is_at_most(date(2024, 2, 1)));
    assert!(date(2024, 2, 1).is_at_most(date(2024, 2, 1)));
    assert!(!date(2024, 2, 2).is_at_most(date(2024, 2, 1)));
}

#[test]
fn the_time_of_a_cloud_save_is_shown() {
    assert_eq!(
        preview_date("2024-02-29T23:05:09.123456+00:00", "%d/%m/%Y-%H:%M:%S"),
        Some("29/02/2024-23:05:09".to_string())
    );
    assert_eq!(preview_date("2024-02-29T23:05:09", "%Y"), Some("2024".to_string()));
    assert_eq!(preview_date("2016-12-31T23:59:60", "%S"), Some("60".to_string()));
}

#[test]
fn a_time_that_is_none_is_not_shown() {
    assert_eq!(preview_date("2023-02-29T23:05:09.1", "%Y"), None);
    assert_eq!(preview_date("2024-02-29T24:00:00", "%Y"), None);
    assert_eq!(preview_date("2024-02-29T23:05:09+00:00", "%Y"), None);
    assert_eq!(preview_date("", "%Y"), None);
}

#[test]
fn a_notation_that_is_none_is_found_out() {
    assert_eq!(try_preview_date("2024-02-29T23:05:09", "%z"), None);
    assert_eq!(try_preview_date("never", "%z"), Some(None));
    assert_eq!(try_preview_date("2024-02-29T23:05:09", "%H"), Some(Some("23".to_string())));
}
