use kanban_io::http::{
    cloud_data_request, delete_save_request, login_request, logout_request, new_password_request,
    recover_request, save_ids_request, signup_request, store_save_request, user_request, HttpReply,
    HttpRequest, Method, Service,
};
use kanban_io::json::JsonMember;
use kanban_io::replies::{
    decide_login, decide_save_ids, decide_user, logged_in_as, lookup, read_login_reply, read_save_ids_reply,
    read_user_reply, LoginError, NO_ACCESS_TOKEN_MESSAGE, TOO_MANY_REQUESTS_MESSAGE,
};

fn service() -> Service {
    Service { url: "https://x.co".to_string(), anon_key: "anon".to_string() }
}

fn headers(request: &HttpRequest) -> Vec<(&str, &str)> {
    request.headers.iter().map(|h| (h.0.as_str(), h.1.as_str())).collect()
}

fn body(request: &HttpRequest) -> serde_json::Value {
    serde_json::from_str(request.body.as_ref().unwrap()).unwrap()
}

fn reply(status: u16, body: &str) -> HttpReply {
    HttpReply { status, body: Ok(body.as_bytes().to_vec()) }
}

fn member(text: Option<&str>, json: &str) -> Result<Option<JsonMember>, String> {
    Ok(Some(JsonMember { text: text.map(String::from), json: json.to_string() }))
}

const PLAIN: [(&str, &str); 2] = [("apikey", "anon"), ("Content-Type", "application/json")];

const BEARER: [(&str, &str); 3] = [
    ("apikey", "anon"),
    ("Content-Type", "application/json"),
    ("Authorization", "Bearer tok"),
];

#[test]
fn credentials_are_posted() {
    let login = login_request(&service(), "a\"b@c.d", "pass\\word");
    assert_eq!(login.method, Method::Post);
    assert_eq!(login.url, "https://x.co/auth/v1/token?grant_type=password");
    assert_eq!(headers(&login), PLAIN);
    assert_eq!(login.body.as_ref().unwrap(), "{\"email\":\"a\\\"b@c.d\",\"password\":\"pass\\\\word\"}");
    let signup = signup_request(&service(), "a", "b");
    assert_eq!(signup.method, Method::Post);
    assert_eq!(signup.url, "https://x.co/auth/v1/signup");
    assert_eq!(headers(&signup), PLAIN);
    assert_eq!(signup.body.as_ref().unwrap(), "{\"email\":\"a\",\"password\":\"b\"}");
}

#[test]
fn requests_of_an_account_carry_its_token() {
    let user = user_request(&service(), "tok");
    assert_eq!((user.method, user.url.as_str()), (Method::Get, "https://x.co/auth/v1/user"));
    assert_eq!(headers(&user), BEARER);
    assert_eq!(user.body, None);
    let logout = logout_request(&service(), "tok");
    assert_eq!((logout.method, logout.url.as_str()), (Method::Post, "https://x.co/auth/v1/logout"));
    assert_eq!(headers(&logout), BEARER);
    assert_eq!(logout.body, None);
    let data = cloud_data_request(&service(), "tok");
    assert_eq!((data.method, data.url.as_str()), (Method::Get, "https://x.co/rest/v1/user_data"));
    assert_eq!(headers(&data), BEARER);
    let delete = delete_save_request(&service(), "tok", 120);
    assert_eq!(
        (delete.method, delete.url.as_str()),
        (Method::Delete, "https://x.co/rest/v1/user_data?id=eq.120")
    );
    assert_eq!(headers(&delete), BEARER);
}

#[test]
fn ten_save_numbers_are_asked_for() {
    let request = save_ids_request(&service(), "tok", "u-1");
    assert_eq!(
        (request.method, request.url.as_str()),
        (Method::Get, "https://x.co/rest/v1/user_data?user_id=eq.u-1&select=save_id")
    );
    assert_eq!(headers(&request)[..3], BEARER);
    assert_eq!(headers(&request)[3..], [("Range", "0-9")]);
}

#[test]
fn passwords_are_reset_by_two_requests() {
    let recover = recover_request(&service(), "a@b");
    assert_eq!((recover.method, recover.url.as_str()), (Method::Post, "https://x.co/auth/v1/recover"));
    assert_eq!(headers(&recover), PLAIN);
    assert_eq!(recover.body.as_ref().unwrap(), "{\"email\":\"a@b\"}");
    let reset = new_password_request(&service(), "tok", "new");
    assert_eq!((reset.method, reset.url.as_str()), (Method::Put, "https://x.co/auth/v1/user"));
    assert_eq!(headers(&reset), BEARER);
    assert_eq!(reset.body.as_ref().unwrap(), "{\"password\":\"new\"}");
}

#[test]
fn a_stored_save_is_read_back_from_the_request() {
    let request = store_save_request(&service(), "tok", "u-1", "data", 4, "nonce");
    assert_eq!((request.method, request.url.as_str()), (Method::Post, "https://x.co/rest/v1/user_data"));
    assert_eq!(headers(&request), BEARER);
    let body = body(&request);
    assert_eq!(body.as_object().unwrap().len(), 4);
    assert_eq!(body.get("user_id").unwrap().as_str(), Some("u-1"));
    assert_eq!(body.get("board_data").unwrap().as_str(), Some("data"));
    assert_eq!(body.get("nonce").unwrap().as_str(), Some("nonce"));
    assert_eq!(body.get("save_id").unwrap().as_u64(), Some(4));
    let found = lookup(&reply(200, request.body.as_ref().unwrap()), "save_id").unwrap().unwrap();
    assert_eq!(found, JsonMember { text: None, json: "4".to_string() });
}

#[test]
fn credentials_are_read_back_by_lookup() {
    let request = login_request(&service(), "ä@b \u{1}", "p\u{1F622}");
    let reply = reply(200, request.body.as_ref().unwrap());
    assert_eq!(lookup(&reply, "email").unwrap().unwrap().text.unwrap(), "ä@b \u{1}");
    assert_eq!(lookup(&reply, "password").unwrap().unwrap().text.unwrap(), "p\u{1F622}");
    assert_eq!(lookup(&reply, "other"), Ok(None));
}

#[test]
fn lookup_shows_what_is_not_text() {
    let found = lookup(&reply(200, "{\"a\": [1, 2]}"), "a").unwrap().unwrap();
    assert_eq!(found, JsonMember { text: None, json: "[1,2]".to_string() });
    let text = lookup(&reply(200, "{\"a\": \"b\"}"), "a").unwrap().unwrap();
    assert_eq!(text, JsonMember { text: Some("b".to_string()), json: "\"b\"".to_string() });
    assert_eq!(lookup(&reply(200, "[1]"), "a"), Ok(None));
}

#[test]
fn lookup_names_the_reason_of_a_failure() {
    let failed = lookup(&reply(200, "nope"), "a").unwrap_err();
    assert_eq!(failed, "error decoding response body: expected ident at line 1 column 2");
    let unread = HttpReply { status: 200, body: Err("gone".to_string()) };
    assert_eq!(lookup(&unread, "a"), Err("gone".to_string()));
}

#[test]
fn a_login_gives_the_access_token() {
    assert_eq!(
        read_login_reply(&reply(200, "{\"access_token\":\"tok\"}")),
        Some(Ok("tok".to_string()))
    );
    assert_eq!(decide_login(200, member(Some("t"), "\"t\""), Ok(None)), Ok("t".to_string()));
}

#[test]
fn each_failure_of_a_login_is_named() {
    let failure = |message: &str, notice: Option<&str>, logged: Option<&str>| {
        Some(Err(LoginError {
            message: message.to_string(),
            notice: notice.map(String::from),
            logged: logged.map(String::from),
        }))
    };
    assert_eq!(
        read_login_reply(&reply(200, "{}")),
        failure(
            NO_ACCESS_TOKEN_MESSAGE,
            Some("Error logging in"),
            Some(NO_ACCESS_TOKEN_MESSAGE)
        )
    );
    assert_eq!(
        read_login_reply(&reply(200, "")),
        failure(
            "Error logging in: error decoding response body: EOF while parsing a value at line 1 column 0",
            None,
            None
        )
    );
    assert_eq!(
        read_login_reply(&reply(429, "")),
        failure(
            TOO_MANY_REQUESTS_MESSAGE,
            Some(TOO_MANY_REQUESTS_MESSAGE),
            Some(TOO_MANY_REQUESTS_MESSAGE)
        )
    );
    assert_eq!(
        read_login_reply(&reply(400, "{\"error_description\":\"bad\"}")),
        failure("Error logging in: \"bad\"", Some("\"bad\""), Some("\"bad\""))
    );
    assert_eq!(
        read_login_reply(&reply(400, "{}")),
        failure("Error logging in", Some("Error logging in"), Some("Error logging in"))
    );
    let unread = HttpReply { status: 500, body: Err("gone".to_string()) };
    assert_eq!(
        read_login_reply(&unread),
        failure(
            "Error logging in: gone",
            Some("Error logging in: gone"),
            Some("Error logging in: gone")
        )
    );
}

#[test]
fn a_login_gives_the_token_and_the_user() {
    assert_eq!(
        logged_in_as("tok".to_string(), Ok("u-1".to_string())),
        Ok(("tok".to_string(), "u-1".to_string()))
    );
    assert_eq!(
        logged_in_as("tok".to_string(), Err("why".to_string())),
        Err("why".to_string())
    );
}

#[test]
fn a_token_that_is_not_text_is_no_outcome() {
    assert_eq!(read_login_reply(&reply(200, "{\"access_token\":1}")), None);
    assert!(read_login_reply(&reply(400, "{\"access_token\":1}")).is_some());
}

#[test]
fn the_number_of_the_user_is_read() {
    let failed = Err("Error retrieving user data".to_string());
    assert_eq!(read_user_reply(&reply(200, "{\"id\":\"u-1\"}")), Some(Ok("u-1".to_string())));
    assert_eq!(read_user_reply(&reply(200, "{}")), Some(failed.clone()));
    assert_eq!(read_user_reply(&reply(401, "{\"id\":\"u-1\"}")), Some(failed.clone()));
    assert_eq!(read_user_reply(&reply(401, "no json")), Some(failed.clone()));
    assert_eq!(read_user_reply(&reply(200, "no json")), None);
    assert_eq!(read_user_reply(&reply(200, "{\"id\":1}")), None);
    assert_eq!(decide_user(200, member(Some("u"), "\"u\"")), Ok("u".to_string()));
    assert_eq!(decide_user(404, Err("x".to_string())), failed);
}

#[test]
fn the_numbers_of_the_saves_are_read() {
    let failed = Err("Error getting save ids".to_string());
    let ok = reply(200, "[{\"save_id\":3},{\"save_id\":0,\"x\":1}]");
    assert_eq!(read_save_ids_reply(Some(&ok)), Ok(vec![3, 0]));
    assert_eq!(read_save_ids_reply(Some(&reply(200, "[]"))), Ok(vec![]));
    for text in ["{}", "[{}]", "[{\"save_id\":-1}]", "[{\"save_id\":\"1\"}]", "nope", "[1]"] {
        assert_eq!(read_save_ids_reply(Some(&reply(200, text))), failed, "{}", text);
    }
    assert_eq!(read_save_ids_reply(Some(&reply(206, "[]"))), failed);
    assert_eq!(read_save_ids_reply(None), failed);
    let unread = HttpReply { status: 200, body: Err("gone".to_string()) };
    assert_eq!(read_save_ids_reply(Some(&unread)), failed);
    assert_eq!(decide_save_ids(200, Ok(Some(vec![Some(Some(5))]))), Ok(vec![5]));
    assert_eq!(decide_save_ids(200, Ok(Some(vec![Some(Some(5)), None]))), failed);
    assert_eq!(decide_save_ids(200, Ok(Some(vec![Some(None)]))), failed);
    assert_eq!(decide_save_ids(200, Ok(None)), failed);
}
