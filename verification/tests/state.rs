use kanban_io::account::access_token_in_url;
use kanban_io::app::{
    refresh_visible_boards_and_cards, App, AppConfig, CloudData, IoEvent, Theme, ToastKind, UiMode,
    UserLoginData,
};
use kanban_io::board::{same_boards, visible_boards_and_cards, Board, Card, VisibleBoards};
use kanban_io::cipher::{decrypt_save, save_user_encryption_key, seal_save};
use kanban_io::cloud::next_save_id;
use kanban_io::http::{HttpReply, Method, Service};
use kanban_io::json::JsonMember;
use kanban_io::local::{auto_save, last_save, prepare_boards, save_required, Deletion, LastSave};
use kanban_io::replies::TOO_MANY_REQUESTS_MESSAGE;
use kanban_io::startup::{
    get_config_dir, get_save_dir, prepare_config_dir, test_access_token_on_disk, ConfigStep,
    LOGIN_EXPIRED, TEMPORARY_SAVE_DIRECTORY,
};
use linked_hash_map::LinkedHashMap;

const KEY: [u8; 32] = [7; 32];
const NONCE: [u8; 12] = [9; 12];

fn theme(name: &str, background: Option<(u8, u8, u8)>) -> Theme {
    Theme { name: name.to_string(), background, details: format!("details of {}", name) }
}

fn app() -> App {
    App {
        boards: vec![],
        filtered_boards: vec![],
        visible_boards_and_cards: LinkedHashMap::new(),
        config: AppConfig {
            always_load_last_save: true,
            auto_login: false,
            no_of_boards_to_show: 2,
            no_of_cards_to_show: 2,
            default_view: UiMode::Other(5),
            default_theme: "dark".to_string(),
            save_directory: "/saves".to_string(),
            date_format: "%Y/%m/%d".to_string(),
        },
        all_themes: vec![theme("plain", None)],
        theme: theme("first", Some((9, 9, 9))),
        toasts: vec![],
        dispatched: vec![],
        initialized: false,
        loading: true,
        user_login_data: UserLoginData::default(),
        cloud_data: None,
        load_save_state: None,
        preview_boards_and_cards: None,
        preview_visible_boards_and_cards: LinkedHashMap::new(),
        preview_file_name: None,
        current_board_id: None,
        current_card_id: None,
        ui_mode: UiMode::Other(1),
        term_background_color: (1, 2, 3),
        last_reset_password_link_sent_time: None,
        encryption_key_from_arguments: None,
    }
}

fn logged_in() -> App {
    let mut app = app();
    app.set_login("tok".to_string(), "a@b".to_string(), "u-1".to_string());
    app
}

fn service() -> Service {
    Service { url: "https://x.co".to_string(), anon_key: "anon".to_string() }
}

fn told(app: &App) -> Vec<(ToastKind, &str)> {
    app.toasts.iter().map(|t| (t.kind, t.message.as_str())).collect()
}

fn info(message: &str) -> (ToastKind, &str) {
    (ToastKind::Info, message)
}

fn warning(message: &str) -> (ToastKind, &str) {
    (ToastKind::Warning, message)
}

fn error(message: &str) -> (ToastKind, &str) {
    (ToastKind::Error, message)
}

fn board(id: u64, cards: &[u64]) -> Board {
    Board {
        id: (id, 0),
        details: format!("board {}", id),
        cards: cards
            .iter()
            .map(|c| Card { id: (id, *c), details: format!("card {}", c) })
            .collect(),
    }
}

fn entries(map: &VisibleBoards) -> Vec<((u64, u64), Vec<(u64, u64)>)> {
    map.iter().map(|(k, v)| (*k, v.clone())).collect()
}

fn cloud_save(id: u64, save_id: usize, json: &str) -> CloudData {
    let (board_data, nonce) = seal_save(json, &KEY, &NONCE).unwrap();
    CloudData {
        id,
        created_at: "2024-02-29T23:05:09.12".to_string(),
        user_id: "u-1".to_string(),
        board_data,
        nonce,
        save_id,
    }
}

fn key_file() -> Option<String> {
    Some(save_user_encryption_key(&KEY))
}

fn reply(status: u16, body: &str) -> HttpReply {
    HttpReply { status, body: Ok(body.as_bytes().to_vec()) }
}

// What is shown.

#[test]
fn the_first_boards_and_cards_are_shown() {
    let boards = vec![board(1, &[1, 2, 3]), board(2, &[]), board(3, &[1])];
    let map = visible_boards_and_cards(&boards, 2, 2);
    assert_eq!(entries(&map), vec![((1, 0), vec![(1, 1), (1, 2)]), ((2, 0), vec![])]);
    assert!(entries(&visible_boards_and_cards(&boards, 0, 2)).is_empty());
    assert_eq!(entries(&visible_boards_and_cards(&boards, 9, 0)).len(), 3);
}

#[test]
fn a_board_that_comes_twice_is_shown_where_it_comes_last() {
    let boards = vec![board(1, &[1]), board(2, &[]), board(1, &[5])];
    let map = visible_boards_and_cards(&boards, 9, 9);
    assert_eq!(entries(&map), vec![((2, 0), vec![]), ((1, 0), vec![(1, 5)])]);
}

#[test]
fn refreshing_makes_the_first_board_current() {
    let mut app = app();
    app.boards = vec![board(4, &[8, 9]), board(5, &[])];
    refresh_visible_boards_and_cards(&mut app);
    assert_eq!(app.current_board_id, Some((4, 0)));
    assert_eq!(app.current_card_id, Some((4, 8)));
    assert_eq!(entries(&app.visible_boards_and_cards).len(), 2);
    let before = entries(&app.visible_boards_and_cards);
    refresh_visible_boards_and_cards(&mut app);
    assert_eq!(entries(&app.visible_boards_and_cards), before);
}

#[test]
fn refreshing_shows_the_filtered_boards() {
    let mut app = app();
    app.boards = vec![board(4, &[8])];
    app.filtered_boards = vec![board(6, &[])];
    app.current_card_id = Some((1, 1));
    refresh_visible_boards_and_cards(&mut app);
    assert_eq!(entries(&app.visible_boards_and_cards), vec![((6, 0), vec![])]);
    assert_eq!(app.current_board_id, Some((6, 0)));
    assert_eq!(app.current_card_id, Some((1, 1)));
}

#[test]
fn refreshing_nothing_keeps_what_is_current() {
    let mut app = app();
    app.current_board_id = Some((3, 3));
    refresh_visible_boards_and_cards(&mut app);
    assert!(app.visible_boards_and_cards.is_empty());
    assert_eq!(app.current_board_id, Some((3, 3)));
}

#[test]
fn boards_are_the_same_where_everything_is() {
    let boards = || vec![board(1, &[1, 2]), board(2, &[])];
    assert!(same_boards(&boards(), &boards()));
    assert!(!same_boards(&boards(), &vec![board(1, &[1, 2])]));
    assert!(!same_boards(&boards(), &vec![board(1, &[1, 3]), board(2, &[])]));
    assert!(!same_boards(&boards(), &vec![board(2, &[]), board(1, &[1, 2])]));
    let mut renamed = boards();
    renamed[0].cards[1].details.push('!');
    assert!(!same_boards(&boards(), &renamed));
    let mut renamed = boards();
    renamed[1].details.push('!');
    assert!(!same_boards(&boards(), &renamed));
}

#[test]
fn work_that_fails_is_reported() {
    let mut app = app();
    app.finish_io_event(false);
    assert!(!app.loading && app.toasts.is_empty());
    app.loading = true;
    app.finish_io_event(true);
    assert!(!app.loading);
    assert_eq!(told(&app), vec![error("Oops, something wrong happened 😢")]);
}

// The account.

#[test]
fn a_login_is_begun() {
    let mut app = app();
    assert!(app.begin_login("a@b", "pw"));
    assert_eq!(told(&app), vec![info("Logging in, please wait...")]);
}

#[test]
fn a_login_without_credentials_is_refused() {
    let mut app1 = app();
    assert!(!app1.begin_login("", ""));
    assert_eq!(
        told(&app1),
        vec![info("Logging in, please wait..."), error("Email cannot be empty")]
    );
    let mut app2 = app();
    assert!(!app2.begin_login("a@b", ""));
    assert_eq!(
        told(&app2),
        vec![info("Logging in, please wait..."), error("Password cannot be empty")]
    );
    assert!(!app2.is_logged_in());
}

#[test]
fn nobody_logs_in_twice() {
    let mut app = logged_in();
    assert!(app.is_logged_in());
    assert!(!app.begin_login("a@b", "pw"));
    assert_eq!(told(&app), vec![error("Already logged in, Please logout first")]);
    let password = "Abcdef1!".to_string();
    assert_eq!(app.begin_signup(&service(), "a@b", &password, &password), None);
    assert_eq!(told(&app)[1], error("Already logged in"));
}

#[test]
fn a_login_is_noted() {
    let mut app = app();
    assert!(!app.set_login("tok".into(), "a@b".into(), "u-1".into()));
    assert_eq!(
        app.user_login_data,
        UserLoginData {
            auth_token: Some("tok".into()),
            email_id: Some("a@b".into()),
            user_id: Some("u-1".into()),
        }
    );
    app.config.auto_login = true;
    assert!(app.set_login("tok".into(), "a@b".into(), "u-1".into()));
    app.finish_login();
    assert_eq!(told(&app), vec![info("👍 Logged in")]);
}

#[test]
fn a_logout_undoes_a_login() {
    let mut app = logged_in();
    let request = app.begin_logout(&service()).unwrap();
    assert_eq!(request.url, "https://x.co/auth/v1/logout");
    assert_eq!(request.headers[2], ("Authorization".to_string(), "Bearer tok".to_string()));
    app.finish_logout(204);
    assert_eq!(app.user_login_data, UserLoginData::default());
    assert_eq!(told(&app), vec![info("Logging out, please wait..."), info("👍 Logged out")]);
    assert!(app.begin_login("a@b", "pw"));
}

#[test]
fn a_failed_logout_keeps_the_login() {
    let mut app1 = logged_in();
    app1.finish_logout(500);
    assert!(app1.is_logged_in());
    assert_eq!(told(&app1), vec![error("Error logging out")]);
    let mut app2 = app();
    assert_eq!(app2.begin_logout(&service()), None);
    assert_eq!(told(&app2), vec![error("Not logged in")]);
}

#[test]
fn a_new_account_is_asked_for() {
    let mut app = app();
    let password = "Abcdef1!".to_string();
    let request = app.begin_signup(&service(), "a@b", &password, &password).unwrap();
    assert_eq!((request.method, request.url.as_str()), (Method::Post, "https://x.co/auth/v1/signup"));
    assert_eq!(request.body.unwrap(), "{\"email\":\"a@b\",\"password\":\"Abcdef1!\"}");
    assert_eq!(told(&app), vec![info("Signing up, please wait...")]);
}

#[test]
fn each_reason_against_a_new_account_is_named() {
    for (email, password, confirm, reason) in [
        ("", "", "", "Email cannot be empty"),
        ("a@b", "", "x", "Password cannot be empty"),
        ("a@b", "x", "", "Password cannot be empty"),
        ("a@b", "x", "y", "Passwords do not match"),
        ("a@b", "Abc1!", "Abc1!", "Password must be atleast 8 characters long"),
        ("a@b", "abcdef1!", "abcdef1!", "Password must contain atleast one uppercase character"),
        ("a@b", "ABCDEF1!", "ABCDEF1!", "Password must contain atleast one lowercase character"),
        ("a@b", "Abcdefg!", "Abcdefg!", "Password must contain atleast one number"),
        ("a@b", "Abcdefg1", "Abcdefg1", "Password must contain atleast one special character"),
    ] {
        let mut app = app();
        let request =
            app.begin_signup(&service(), email, &password.to_string(), &confirm.to_string());
        assert_eq!(request, None);
        assert_eq!(told(&app), vec![error(reason)]);
    }
}

#[test]
fn a_password_that_is_too_long_is_told_and_taken() {
    let password = "Abcdefghijklmnopqrstuvwxyz123456!".to_string();
    let mut app1 = app();
    assert!(app1.begin_signup(&service(), "a@b", &password, &password).is_some());
    assert_eq!(
        told(&app1),
        vec![
            error("Password must be atmost 32 characters long"),
            info("Signing up, please wait..."),
        ]
    );
    let mut app2 = app();
    assert!(app2.begin_reset_password("link", &password, &password));
    assert_eq!(
        told(&app2),
        vec![
            error("Password must be atmost 32 characters long"),
            info("Resetting password, please wait..."),
        ]
    );
}

#[test]
fn a_confirmed_account_gets_a_key() {
    let mut app = app();
    assert!(app.read_signup_reply(&reply(200, "{\"confirmation_sent_at\":\"now\"}")));
    app.finish_signup(Some("/home/k".to_string()));
    assert_eq!(
        told(&app),
        vec![
            info("👍 Confirmation email sent"),
            info("👍 Encryption key saved at /home/k"),
            warning("Please keep this key safe, you will need it to decrypt your data, you will not be able to recover your data without it"),
        ]
    );
}

#[test]
fn a_key_that_cannot_be_saved_is_reported() {
    let mut app = app();
    app.finish_signup(None);
    assert_eq!(told(&app), vec![error("Error saving encryption key")]);
}

#[test]
fn an_account_that_is_not_confirmed_gets_no_key() {
    for (status, body, message) in [
        (200, "{}", "Error signing up"),
        (200, "{\"confirmation_sent_at\":5}", "Error signing up"),
        (200, "no json", "Error signing up"),
        (429, "{}", TOO_MANY_REQUESTS_MESSAGE),
        (500, "{\"confirmation_sent_at\":\"now\"}", "Error signing up"),
    ] {
        let mut app = app();
        assert!(!app.read_signup_reply(&reply(status, body)));
        assert_eq!(told(&app), vec![error(message)]);
    }
    let mut other = app();
    let sent = JsonMember { text: Some("now".into()), json: "\"now\"".into() };
    assert!(other.decide_signup(200, Ok(Some(sent))));
    assert!(!other.decide_signup(200, Err("x".into())));
}

#[test]
fn a_reset_mail_is_asked_for() {
    let mut app1 = app();
    let request = app1.begin_reset_email(&service(), "a@b", 5).unwrap();
    assert_eq!(request.url, "https://x.co/auth/v1/recover");
    app1.finish_reset_email(200, 7);
    assert_eq!(app1.last_reset_password_link_sent_time, Some(7));
    assert_eq!(
        told(&app1),
        vec![
            info("Sending reset password email, please wait..."),
            info("👍 Reset password email sent"),
        ]
    );
    let mut app2 = app();
    app2.finish_reset_email(429, 7);
    app2.finish_reset_email(500, 7);
    assert_eq!(app2.begin_reset_email(&service(), "", 5), None);
    assert_eq!(app2.last_reset_password_link_sent_time, None);
    assert_eq!(
        told(&app2),
        vec![
            error(TOO_MANY_REQUESTS_MESSAGE),
            error("Error sending reset password email"),
            error("Email cannot be empty"),
        ]
    );
}

#[test]
fn reset_mails_are_a_minute_apart() {
    let second: u128 = 1_000_000_000;
    let mut app = app();
    app.finish_reset_email(200, 100 * second);
    app.toasts.clear();
    assert_eq!(app.begin_reset_email(&service(), "a@b", 100 * second), None);
    assert_eq!(app.begin_reset_email(&service(), "", 100 * second + 1), None);
    assert_eq!(app.begin_reset_email(&service(), "a@b", 160 * second - 1), None);
    assert_eq!(app.begin_reset_email(&service(), "a@b", 0), None);
    assert_eq!(
        told(&app),
        vec![
            error("Please wait for 60 seconds before sending another reset password email"),
            error("Please wait for 59 seconds before sending another reset password email"),
            error("Please wait for 0 seconds before sending another reset password email"),
            error("Please wait for 60 seconds before sending another reset password email"),
        ]
    );
    assert!(app.begin_reset_email(&service(), "a@b", 160 * second).is_some());
}

#[test]
fn each_reason_against_a_new_password_is_named() {
    for (link, password, confirm, reason) in [
        ("", "", "", "Reset link cannot be empty"),
        ("l", "", "x", "Password cannot be empty"),
        ("l", "x", "", "Password cannot be empty"),
        ("l", "x", "y", "Passwords do not match"),
        ("l", "Abc1!", "Abc1!", "Password must be atleast 8 characters long"),
    ] {
        let mut app = app();
        assert!(!app.begin_reset_password(link, &password.to_string(), &confirm.to_string()));
        assert_eq!(told(&app), vec![error(reason)]);
    }
}

#[test]
fn the_token_in_an_address_is_found() {
    assert_eq!(
        access_token_in_url("http://localhost:3000/#access_token=abc&expires_in=3600&x=1"),
        "abc"
    );
    assert_eq!(access_token_in_url("a&access_token=b&access_token=c"), "c");
    assert_eq!(access_token_in_url("http://nothing"), "http://nothing");
    assert_eq!(access_token_in_url(""), "");
}

#[test]
fn a_valid_reset_link_leads_to_a_request() {
    let mut app = app();
    let url = Some("http://l/#access_token=abc&expires_in=1".to_string());
    let request = app.follow_reset_link(&service(), url, "Abcdef1!").unwrap();
    assert_eq!((request.method, request.url.as_str()), (Method::Put, "https://x.co/auth/v1/user"));
    assert_eq!(request.headers[2].1, "Bearer abc");
    assert_eq!(request.body.unwrap(), "{\"password\":\"Abcdef1!\"}");
    assert!(app.toasts.is_empty());
    assert_eq!(app.follow_reset_link(&service(), None, "Abcdef1!"), None);
    assert_eq!(told(&app), vec![error("Error verifying reset password link")]);
}

#[test]
fn the_end_of_a_reset_is_told() {
    let mut app = app();
    app.set_ui_mode(UiMode::ResetPassword);
    assert!(app.leaves_reset_screen(200));
    assert!(!app.leaves_reset_screen(422));
    app.set_ui_mode(UiMode::Login);
    assert!(!app.leaves_reset_screen(200));
    app.finish_reset_password(200);
    app.finish_reset_password(422);
    app.finish_reset_password(500);
    assert_eq!(
        told(&app),
        vec![
            info("👍 Password reset successful"),
            error("Error resetting password, new password cannot be same as old password"),
            error("Error resetting password"),
        ]
    );
}

// The cloud.

#[test]
fn the_next_save_number_is_new() {
    assert_eq!(next_save_id(&vec![]), 0);
    assert_eq!(next_save_id(&vec![0]), 1);
    assert_eq!(next_save_id(&vec![3, 9, 4]), 10);
}

#[test]
fn boards_are_stored_in_the_cloud() {
    let mut app = logged_in();
    assert!(app.begin_sync());
    let request = app.begin_save_ids(&service()).unwrap();
    assert_eq!(
        request.url,
        "https://x.co/rest/v1/user_data?user_id=eq.u-1&select=save_id"
    );
    let ids = app.finish_save_ids(Ok(vec![1, 4]));
    let request =
        app.sync_boards(&service(), &ids, key_file(), Some("[\"é\"]".to_string())).unwrap();
    let body: serde_json::Value = serde_json::from_str(&request.body.unwrap()).unwrap();
    assert_eq!(body.get("save_id").unwrap().as_u64(), Some(5));
    assert_eq!(body.get("user_id").unwrap().as_str(), Some("u-1"));
    let data = body.get("board_data").unwrap().as_str().unwrap();
    let nonce = body.get("nonce").unwrap().as_str().unwrap();
    assert_eq!(decrypt_save(data, &KEY, nonce), Ok("[\"é\"]".to_string()));
    app.finish_sync(201);
    assert_eq!(
        told(&app),
        vec![info("Syncing local data, please wait..."), info("👍 Local data synced to the cloud")]
    );
    assert!(app.dispatched.is_empty());
}

#[test]
fn a_known_list_of_cloud_saves_is_asked_for_anew() {
    let mut app = logged_in();
    app.cloud_data = Some(vec![]);
    app.finish_sync(500);
    assert!(app.dispatched.is_empty());
    app.finish_sync(201);
    assert_eq!(app.dispatched, vec![IoEvent::GetCloudData]);
    assert_eq!(told(&app)[0], error("Error syncing local data"));
}

#[test]
fn each_reason_against_storing_is_named() {
    let mut app1 = app();
    assert!(!app1.begin_sync());
    assert_eq!(app1.begin_save_ids(&service()), None);
    assert_eq!(told(&app1), vec![error("Not logged in"), error("Not logged in")]);
    let mut app2 = logged_in();
    assert!(app2.finish_save_ids(Err("why".to_string())).is_empty());
    assert_eq!(app2.sync_boards(&service(), &vec![], None, Some("[]".into())), None);
    assert_eq!(app2.sync_boards(&service(), &vec![], key_file(), None), None);
    assert_eq!(
        told(&app2),
        vec![
            error("why"),
            error("Error syncing local data, Could not get encryption key, If you have lost it please generate a new one using the -g flag"),
            error("Error syncing local data"),
        ]
    );
}

#[test]
fn a_sealed_save_is_uploaded() {
    let mut app = logged_in();
    let request = app.upload_save(&service(), 3, Ok(("data".into(), "n".into()))).unwrap();
    assert_eq!(request.url, "https://x.co/rest/v1/user_data");
    assert_eq!(
        request.body.unwrap(),
        "{\"board_data\":\"data\",\"nonce\":\"n\",\"save_id\":3,\"user_id\":\"u-1\"}"
    );
    assert_eq!(app.upload_save(&service(), 3, Err("x".into())), None);
    assert_eq!(told(&app), vec![error("Error syncing local data")]);
}

#[test]
fn cloud_saves_are_listed() {
    let mut app = logged_in();
    app.cloud_data = Some(vec![]);
    assert!(app.begin_cloud_data(&service()).is_some());
    assert_eq!(app.cloud_data, None);
    app.finish_cloud_data(200, Some(vec![cloud_save(1, 2, "[]")]));
    assert_eq!(app.cloud_data, Some(vec![cloud_save(1, 2, "[]")]));
    app.finish_cloud_data(200, None);
    app.finish_cloud_data(500, Some(vec![]));
    assert_eq!(app.cloud_data.as_ref().unwrap().len(), 1);
    assert_eq!(
        told(&app),
        vec![
            info("Refreshing cloud data, please wait..."),
            info("👍 Cloud data loaded"),
            error("Error Refreshing cloud data"),
            error("Error Refreshing cloud data"),
        ]
    );
}

#[test]
fn nobody_lists_no_cloud_saves() {
    let mut app = app();
    app.cloud_data = Some(vec![]);
    assert_eq!(app.begin_cloud_data(&service()), None);
    assert_eq!(app.cloud_data, Some(vec![]));
    assert_eq!(told(&app), vec![error("Not logged in")]);
}

#[test]
fn a_cloud_save_is_previewed() {
    let mut app = app();
    app.cloud_data = Some(vec![cloud_save(1, 2, "first"), cloud_save(3, 4, "second")]);
    app.load_save_state = Some(1);
    assert!(app.can_try_key(1, key_file()));
    assert_eq!(app.preview_cloud_save(key_file()), Some((1, "second".to_string())));
    assert!(app.show_cloud_preview(1, Some(vec![board(1, &[1, 2, 3])])));
    assert_eq!(app.preview_file_name.as_ref().unwrap(), "Cloud_save_4 - 2024/02/29");
    assert!(same_boards(
        app.preview_boards_and_cards.as_ref().unwrap(),
        &vec![board(1, &[1, 2, 3])]
    ));
    assert_eq!(
        entries(&app.preview_visible_boards_and_cards),
        vec![((1, 0), vec![(1, 1), (1, 2)])]
    );
    assert!(app.boards.is_empty() && app.toasts.is_empty());
}

#[test]
fn a_preview_shows_what_loading_brings() {
    let boards = || vec![board(1, &[1, 2, 3]), board(2, &[]), board(3, &[])];
    let mut app = app();
    app.cloud_data = Some(vec![cloud_save(1, 2, "x")]);
    app.finish_cloud_preview(&cloud_save(1, 2, "x"), Some(boards()), None);
    assert_eq!(app.preview_file_name, None);
    app.finish_cloud_load(0, Some(boards()));
    refresh_visible_boards_and_cards(&mut app);
    assert_eq!(
        entries(&app.preview_visible_boards_and_cards),
        entries(&app.visible_boards_and_cards)
    );
}

#[test]
fn each_reason_against_a_cloud_preview_is_named() {
    let mut app1 = app();
    app1.cloud_data = Some(vec![cloud_save(1, 2, "x")]);
    assert_eq!(app1.preview_cloud_save(key_file()), None);
    assert_eq!(told(&app1), vec![error("No save selected to preview")]);
    let mut app2 = app();
    app2.load_save_state = Some(1);
    assert_eq!(app2.preview_cloud_save(key_file()), None);
    app2.cloud_data = Some(vec![cloud_save(1, 2, "x")]);
    assert_eq!(app2.preview_cloud_save(key_file()), None);
    assert!(app2.toasts.is_empty());
    app2.load_save_state = Some(0);
    assert_eq!(app2.preview_cloud_save(None), None);
    assert_eq!(app2.preview_cloud_save(Some(save_user_encryption_key(&[1; 32]))), None);
    assert!(app2.show_cloud_preview(0, None));
    assert_eq!(
        told(&app2),
        vec![
            error("Error loading save file, Could not get user Encryption key .If lost please generate a new one by using the -g flag"),
            error("Error loading save file, Could not decrypt save file"),
            error("Error loading save file, Could not decrypt save file"),
        ]
    );
    assert!(app2.preview_boards_and_cards.is_none());
}

#[test]
fn keys_and_dates_that_do_not_fit_are_found_out() {
    let mut app = app();
    app.cloud_data = Some(vec![cloud_save(1, 2, "x")]);
    assert!(app.can_try_key(0, key_file()));
    assert!(app.can_try_key(0, None));
    assert!(app.can_try_key(7, Some("AAAA".to_string())));
    assert!(!app.can_try_key(0, Some("AAAA".to_string())));
    app.config.date_format = "%z".to_string();
    assert!(!app.show_cloud_preview(0, Some(vec![])));
    assert!(app.preview_boards_and_cards.is_none() && app.toasts.is_empty());
}

#[test]
fn a_save_without_a_time_keeps_the_name_of_the_preview() {
    let mut app = app();
    let mut save = cloud_save(1, 2, "x");
    save.created_at = "long ago".to_string();
    app.cloud_data = Some(vec![save]);
    app.preview_file_name = Some("old".to_string());
    assert!(app.show_cloud_preview(0, Some(vec![])));
    assert_eq!(app.preview_file_name, Some("old".to_string()));
    assert!(app.preview_boards_and_cards.is_some());
}

#[test]
fn a_cloud_save_is_loaded() {
    let mut app = app();
    app.encryption_key_from_arguments = key_file();
    app.cloud_data = Some(vec![cloud_save(1, 12, "json")]);
    assert_eq!(app.load_save_file_cloud(None), Some((0, "json".to_string())));
    app.finish_cloud_load(0, Some(vec![board(1, &[])]));
    assert!(same_boards(&app.boards, &vec![board(1, &[])]));
    assert_eq!(told(&app), vec![info("👍 Save file cloud_save_12 loaded")]);
    assert_eq!(app.dispatched, vec![IoEvent::ResetVisibleBoardsandCards]);
    assert_eq!(app.ui_mode, UiMode::Other(5));
}

#[test]
fn each_reason_against_loading_a_cloud_save_is_named() {
    let mut app = app();
    assert_eq!(app.load_save_file_cloud(key_file()), None);
    app.cloud_data = Some(vec![cloud_save(1, 2, "x")]);
    app.load_save_state = Some(1);
    assert_eq!(app.load_save_file_cloud(key_file()), None);
    app.load_save_state = Some(0);
    assert_eq!(app.load_save_file_cloud(Some("?".into())), None);
    assert_eq!(app.load_save_file_cloud(Some(save_user_encryption_key(&[1; 32]))), None);
    app.finish_cloud_load(0, None);
    assert_eq!(
        told(&app),
        vec![
            error("Could not get local save files"),
            error("Cannot load save file: No such file"),
            error("Cannot load save file: No such file"),
            error("Error loading save file, Could not get user Encryption key. If lost please generate a new one by using the -g flag"),
            error("Error loading save file, Could not decrypt save file"),
            error("Error loading save file, Could not decrypt save file"),
        ]
    );
    assert!(app.dispatched.is_empty() && app.boards.is_empty());
}

#[test]
fn a_cloud_save_is_deleted() {
    let mut app = logged_in();
    app.cloud_data = Some(vec![cloud_save(1, 2, "x"), cloud_save(30, 4, "x")]);
    app.load_save_state = Some(1);
    let (request, number) = app.begin_cloud_delete(&service()).unwrap();
    assert_eq!(
        (request.method, request.url.as_str()),
        (Method::Delete, "https://x.co/rest/v1/user_data?id=eq.30")
    );
    assert_eq!(number, 4);
    app.finish_cloud_delete(204, number);
    app.finish_cloud_delete(200, number);
    assert_eq!(
        told(&app),
        vec![
            info("Deleting cloud save, please wait..."),
            info("👍 Cloud save 4 deleted"),
            error("Error deleting cloud save"),
        ]
    );
    assert_eq!(app.cloud_data.unwrap().len(), 2);
}

#[test]
fn each_reason_against_deleting_a_cloud_save_is_named() {
    let mut app1 = app();
    app1.cloud_data = Some(vec![cloud_save(1, 2, "x")]);
    assert_eq!(app1.begin_cloud_delete(&service()), None);
    assert_eq!(told(&app1), vec![error("Not logged in")]);
    let mut app2 = logged_in();
    assert_eq!(app2.begin_cloud_delete(&service()), None);
    app2.cloud_data = Some(vec![]);
    assert_eq!(app2.begin_cloud_delete(&service()), None);
    assert_eq!(
        told(&app2),
        vec![
            info("Deleting cloud save, please wait..."),
            error("Could not get local save files"),
            info("Deleting cloud save, please wait..."),
            error("Cannot delete save file: No such file"),
        ]
    );
}

// The save directory.

fn files(list: &[&str]) -> Option<Vec<String>> {
    Some(list.iter().map(|f| f.to_string()).collect())
}

#[test]
fn boards_are_saved_where_they_changed() {
    let mut app = app();
    app.boards = vec![board(1, &[1])];
    let same = LastSave::Loaded("n".to_string(), vec![board(1, &[1])]);
    let other = LastSave::Loaded("n".to_string(), vec![]);
    assert!(!save_required(&app, &same));
    assert!(save_required(&app, &other));
    assert!(save_required(&app, &LastSave::Missing));
    assert!(save_required(&app, &LastSave::Unreadable));
    assert!(auto_save(&app, &same).is_none());
    assert!(same_boards(auto_save(&app, &other).unwrap(), &app.boards));
    assert!(!app.begin_local_save(&same));
    assert!(app.begin_local_save(&other));
    app.finish_local_save(true);
    app.finish_local_save(false);
    assert_eq!(
        told(&app),
        vec![
            warning("No changes to save"),
            info("👍 Local data saved"),
            error("Cannot save local data"),
        ]
    );
}

#[test]
fn the_kind_of_the_latest_save_is_known() {
    let none: Result<String, String> = Err("No local save files found".to_string());
    let name: Result<String, String> = Ok("a.json".to_string());
    assert!(matches!(last_save(none.clone(), None), LastSave::Missing));
    assert!(matches!(last_save(none, Some(vec![])), LastSave::Missing));
    assert!(matches!(last_save(name.clone(), None), LastSave::Unreadable));
    match last_save(name, Some(vec![board(1, &[])])) {
        LastSave::Loaded(file, boards) => {
            assert_eq!(file, "a.json");
            assert!(same_boards(&boards, &vec![board(1, &[])]));
        }
        _ => panic!("the save was read"),
    }
}

#[test]
fn the_latest_save_is_where_the_program_starts() {
    let mut app = app();
    let name = "kanban_01-02-2024_v3.json".to_string();
    let boards = prepare_boards(&mut app, LastSave::Loaded(name, vec![board(1, &[])]));
    assert!(same_boards(&boards, &vec![board(1, &[])]));
    assert!(prepare_boards(&mut app, LastSave::Missing).is_empty());
    assert!(prepare_boards(&mut app, LastSave::Unreadable).is_empty());
    let odd = LastSave::Loaded("a\"b\n".to_string(), vec![]);
    assert!(prepare_boards(&mut app, odd).is_empty());
    assert_eq!(
        told(&app),
        vec![
            info("👍 Local data loaded from \"kanban_01-02-2024_v3.json\""),
            error("👎 Cannot get local data, Data might be corrupted or is not in the correct format"),
            info("👍 Local data loaded from \"a\\\"b\\n\""),
        ]
    );
    assert_eq!(app.ui_mode, UiMode::Other(1));
}

#[test]
fn a_user_who_does_not_want_the_latest_save_chooses_one() {
    let mut app = app();
    app.config.always_load_last_save = false;
    let last = LastSave::Loaded("n".to_string(), vec![board(1, &[])]);
    assert!(prepare_boards(&mut app, last).is_empty());
    assert!(app.is_on_screen(UiMode::LoadLocalSave));
    assert!(app.toasts.is_empty());
}

#[test]
fn a_local_save_is_loaded() {
    let mut app = app();
    app.load_save_state = Some(1);
    let name = app.begin_local_load(&files(&["a", "b.json"])).unwrap();
    app.finish_local_load(&name, Some(vec![board(1, &[])]));
    assert!(same_boards(&app.boards, &vec![board(1, &[])]));
    app.finish_local_load(&name, None);
    assert_eq!(
        told(&app),
        vec![info("👍 Save file \"b.json\" loaded"), error("Cannot load save file")]
    );
    assert_eq!(app.dispatched.len(), 2);
    assert_eq!(app.dispatched[1], IoEvent::ResetVisibleBoardsandCards);
    assert_eq!(app.ui_mode, UiMode::Other(5));
    assert!(same_boards(&app.boards, &vec![board(1, &[])]));
}

#[test]
fn each_reason_against_loading_a_local_save_is_named() {
    let mut app = app();
    assert_eq!(app.begin_local_load(&files(&["a"])), Some("a".to_string()));
    assert_eq!(app.begin_local_load(&None), None);
    assert_eq!(app.begin_local_load(&files(&[])), None);
    assert_eq!(
        told(&app),
        vec![
            error("Could not get local save files"),
            error("Cannot load save file: No such file"),
            error("Cannot load save file: No such file"),
        ]
    );
}

#[test]
fn the_selection_stays_in_range_after_a_deletion() {
    for (selected, left, kept) in [
        (0, vec!["b", "c"], Some(0)),
        (1, vec!["a", "c"], Some(1)),
        (2, vec!["a", "b"], Some(1)),
        (0, vec![], None),
    ] {
        let mut app = app();
        app.load_save_state = Some(selected);
        assert!(app.begin_local_delete(&files(&["a", "b", "c"])).is_some());
        assert!(app.local_file_deleted(Deletion::Done));
        app.finish_local_delete(&files(&left));
        assert_eq!(app.load_save_state, kept);
        assert_eq!(told(&app), vec![info("👍 Save file deleted")]);
    }
    let mut unlisted = app();
    unlisted.load_save_state = Some(1);
    unlisted.finish_local_delete(&None);
    assert_eq!(unlisted.load_save_state, None);
}

#[test]
fn each_reason_against_deleting_a_local_save_is_named() {
    let mut app = app();
    assert_eq!(app.begin_local_delete(&None), None);
    assert_eq!(app.begin_local_delete(&files(&["a"])), None);
    app.load_save_state = Some(1);
    assert_eq!(app.begin_local_delete(&files(&["a"])), None);
    assert!(!app.local_file_deleted(Deletion::NotFound));
    assert_eq!(app.load_save_state, Some(1));
    assert!(!app.local_file_deleted(Deletion::Failed));
    assert_eq!(app.load_save_state, None);
    assert_eq!(
        told(&app),
        vec![
            error("Cannot delete save file: no save files found"),
            error("Cannot delete save file: no save file selected"),
            error("Cannot delete save file: Something went wrong"),
            error("Cannot delete save file: file not found"),
            error("Cannot delete save file: Something went wrong"),
        ]
    );
}

#[test]
fn a_local_save_is_previewed() {
    let mut app = app();
    app.load_save_state = Some(0);
    app.preview_boards_and_cards = Some(vec![]);
    let name = app.begin_local_preview(&files(&["a"])).unwrap();
    assert!(app.preview_boards_and_cards.is_none());
    app.finish_local_preview(name, Some(vec![board(1, &[1, 2, 3])]));
    assert_eq!(app.preview_file_name, Some("a".to_string()));
    assert_eq!(
        entries(&app.preview_visible_boards_and_cards),
        vec![((1, 0), vec![(1, 1), (1, 2)])]
    );
    assert!(app.preview_boards_and_cards.is_some());
    assert!(app.toasts.is_empty());
}

#[test]
fn each_reason_against_a_local_preview_is_named() {
    let mut app = app();
    app.preview_boards_and_cards = Some(vec![]);
    assert_eq!(app.begin_local_preview(&files(&["a"])), None);
    assert!(app.preview_boards_and_cards.is_some() && app.toasts.is_empty());
    app.load_save_state = Some(3);
    assert_eq!(app.begin_local_preview(&None), None);
    assert!(app.preview_boards_and_cards.is_none());
    assert_eq!(app.begin_local_preview(&files(&["a"])), None);
    app.finish_local_preview("a".to_string(), None);
    assert_eq!(app.preview_file_name, None);
    assert_eq!(
        told(&app),
        vec![
            error("Could not get local save files"),
            error("Cannot load preview: No such file"),
            error("Cannot load preview: No such file"),
            error("Error loading preview"),
        ]
    );
}

// The start.

#[test]
fn the_settings_are_below_the_home_directory() {
    assert_eq!(get_config_dir(true, false).unwrap(), vec![".config", "rust-kanban"]);
    assert_eq!(get_config_dir(true, true).unwrap(), vec!["AppData", "Roaming", "rust-kanban"]);
    assert_eq!(get_config_dir(false, false), Err("Error getting home directory".to_string()));
    assert_eq!(get_save_dir(), "rust_kanban");
}

#[test]
fn the_directory_of_the_settings_is_prepared() {
    let run = |answers: &[bool]| -> Result<ConfigStep, String> {
        let mut step = ConfigStep::Locate;
        for answer in answers {
            step = prepare_config_dir(step, *answer)?;
        }
        Ok(step)
    };
    assert_eq!(run(&[true, true, true]), Ok(ConfigStep::Ready));
    assert_eq!(run(&[true, false]), Ok(ConfigStep::CreateDir));
    assert_eq!(run(&[true, false, true, false]), Ok(ConfigStep::WriteFile));
    assert_eq!(run(&[true, false, true, false, true]), Ok(ConfigStep::Ready));
    assert_eq!(run(&[true, true, true, false, false]), Ok(ConfigStep::Ready));
    assert_eq!(run(&[false]), Err("Error getting config directory".to_string()));
    assert_eq!(run(&[true, false, false]), Err("Error creating config directory".to_string()));
    assert_eq!(run(&[true, true, false, false]), Err("Error creating config file".to_string()));
}

#[test]
fn the_program_starts() {
    let mut app = app();
    let last = LastSave::Loaded("a.json".to_string(), vec![board(1, &[])]);
    let themes = Some(vec![theme("dark", Some((1, 1, 1))), theme("dark", None)]);
    assert!(!app.initialize(true, true, last, themes, &"/tmp".to_string()));
    assert!(app.initialized);
    assert!(same_boards(&app.boards, &vec![board(1, &[])]));
    assert_eq!(app.all_themes.len(), 3);
    assert_eq!(app.theme, theme("dark", Some((1, 1, 1))));
    assert_eq!(app.term_background_color, (1, 1, 1));
    assert_eq!(app.ui_mode, UiMode::Other(5));
    assert_eq!(app.dispatched, vec![IoEvent::ResetVisibleBoardsandCards]);
    assert_eq!(
        told(&app),
        vec![info("👍 Local data loaded from \"a.json\""), info("Application initialized")]
    );
}

#[test]
fn the_default_directory_is_known_however_it_is_written() {
    let warned = |chosen: &str, default: &str| {
        let mut app = app();
        app.config.save_directory = chosen.to_string();
        app.initialize(true, true, LastSave::Missing, None, &default.to_string());
        told(&app).contains(&warning(TEMPORARY_SAVE_DIRECTORY))
    };
    assert!(warned("/tmp/k", "/tmp/k"));
    assert!(warned("/tmp/k/", "/tmp/k"));
    assert!(warned("/tmp//k/.", "/tmp/./k"));
    assert!(warned("k:\\x", "k:\\x"));
    assert!(!warned("/tmp/k", "tmp/k"));
    assert!(!warned("/tmp/k/..", "/tmp"));
    assert!(!warned("./k", "k"));
    assert!(!warned("/tmp/k", "/tmp/K"));
    assert!(!warned("", "."));
}

#[test]
fn the_program_starts_with_a_warning_where_saves_are_temporary() {
    for temporary in [true, false] {
        let mut app = app();
        assert!(!app.start(true, true, LastSave::Missing, None, temporary));
        assert_eq!(told(&app).contains(&warning(TEMPORARY_SAVE_DIRECTORY)), temporary);
        assert!(app.initialized);
    }
}

#[test]
fn troubles_at_the_start_are_told() {
    let mut app = app();
    app.config.auto_login = true;
    app.config.always_load_last_save = false;
    app.config.default_theme = "plain".to_string();
    assert!(app.initialize(false, false, LastSave::Missing, None, &"/saves".to_string()));
    assert_eq!(
        told(&app),
        vec![
            error("Cannot create config directory"),
            error("Cannot create save directory"),
            warning(TEMPORARY_SAVE_DIRECTORY),
            info("Application initialized"),
            info("Attempting to auto login"),
        ]
    );
    assert_eq!(app.toasts[2].seconds, Some(10));
    assert_eq!(app.toasts[3].seconds, None);
    assert_eq!(app.ui_mode, UiMode::Other(5));
    assert_eq!(app.theme, theme("plain", None));
    assert_eq!(app.term_background_color, (0, 0, 0));
}

#[test]
fn a_theme_that_is_missing_changes_nothing() {
    let mut app = app();
    app.choose_theme(None);
    assert_eq!(app.theme, theme("first", Some((9, 9, 9))));
    assert_eq!(app.term_background_color, (9, 9, 9));
    assert_eq!(app.all_themes.len(), 1);
}

#[test]
fn the_last_login_is_taken_up() {
    let mut app = app();
    let data = test_access_token_on_disk("tok".into(), "a@b".into(), Ok("u-1".into())).unwrap();
    app.auto_login(data);
    assert_eq!(app.user_login_data, logged_in().user_login_data);
    assert_eq!(told(&app), vec![info("👍 Auto login successful")]);
    assert_eq!(
        test_access_token_on_disk("tok".into(), "a@b".into(), Err("why".into())),
        Err("why".to_string())
    );
}

#[test]
fn a_last_login_that_does_not_hold_is_told() {
    let mut app = app();
    app.auto_login_failed(false, Some(true));
    app.auto_login_failed(true, Some(false));
    app.auto_login_failed(true, Some(true));
    app.auto_login_failed(true, None);
    assert_eq!(
        told(&app),
        vec![
            error("Cannot get config directory"),
            error("Cannot delete access token file"),
            warning(LOGIN_EXPIRED),
            warning(LOGIN_EXPIRED),
        ]
    );
}
