//! Requests to the service that keeps accounts and cloud saves, and what comes back.

use crate::json::{
    json_numbers, json_object, json_object_text, json_pairs, only_field, only_number, says,
    says_number,
};
use crate::text::{decimal, push_decimal, text_option};
use vstd::prelude::*;
use vstd::string::*;
use vstd::utf8::*;

verus! {

/// What is asked of the service.
#[derive(Clone, Copy, Debug, PartialEq, Eq, Structural)]
pub enum Method {
    Get,
    Post,
    Put,
    Delete,
}

/// A request.
#[derive(Debug, PartialEq, Eq)]
pub struct HttpRequest {
    pub method: Method,
    pub url: String,
    pub headers: Vec<(String, String)>,
    pub body: Option<String>,
}

/// What a request is.
#[verifier::ext_equal]
pub struct RequestView {
    pub method: Method,
    pub url: Seq<char>,
    pub headers: Seq<(Seq<char>, Seq<char>)>,
    pub body: Option<Seq<char>>,
}

/// The names and values of headers.
pub open spec fn headers_view(headers: Seq<(String, String)>) -> Seq<(Seq<char>, Seq<char>)> {
    headers.map_values(|header: (String, String)| (header.0@, header.1@))
}

impl View for HttpRequest {
    type V = RequestView;

    open spec fn view(&self) -> RequestView {
        RequestView {
            method: self.method,
            url: self.url@,
            headers: headers_view(self.headers@),
            body: text_option(self.body),
        }
    }
}

/// What a request is, where there is one.
pub open spec fn request_option(request: Option<HttpRequest>) -> Option<RequestView> {
    match request {
        Some(r) => Some(r@),
        None => None,
    }
}

/// What came back for a request: the status, and the body or the reason why it could not be read.
#[derive(Debug, PartialEq, Eq)]
pub struct HttpReply {
    pub status: u16,
    pub body: Result<Vec<u8>, String>,
}

/// Success.
pub const OK: u16 = 200;

/// Success, and something new exists.
pub const CREATED: u16 = 201;

/// Success, and there is nothing to say.
pub const NO_CONTENT: u16 = 204;

/// The service does not accept what it was given.
pub const UNPROCESSABLE_ENTITY: u16 = 422;

/// The service was asked too often.
pub const TOO_MANY_REQUESTS: u16 = 429;

/// Where the service is, and the key that every request to it carries.
#[derive(Debug, PartialEq, Eq)]
pub struct Service {
    pub url: String,
    pub anon_key: String,
}

/// The headers of every request, and the token of the account where there is one.
pub open spec fn standard_headers(service: Service, access_token: Option<Seq<char>>) -> Seq<
    (Seq<char>, Seq<char>),
> {
    let common = seq![
        ("apikey"@, service.anon_key@),
        ("Content-Type"@, "application/json"@),
    ];
    match access_token {
        None => common,
        Some(token) => common.push(("Authorization"@, "Bearer "@ + token)),
    }
}

/// A request to a path of the service.
pub open spec fn service_request(
    service: Service,
    method: Method,
    path: Seq<char>,
    access_token: Option<Seq<char>>,
    body: Option<Seq<char>>,
) -> RequestView {
    RequestView {
        method,
        url: service.url@ + path,
        headers: standard_headers(service, access_token),
        body,
    }
}

/// Puts a request to a path of the service together.
fn make_request(
    service: &Service,
    method: Method,
    path: &str,
    access_token: Option<&str>,
    body: Option<String>,
) -> (request: HttpRequest)
    ensures
        request@ == service_request(
            *service,
            method,
            path@,
            match access_token {
                Some(t) => Some(t@),
                None => None,
            },
            text_option(body),
        ),
{
    let mut url = service.url.clone();
    url.append(path);
    let mut headers: Vec<(String, String)> = Vec::new();
    headers.push(("apikey".to_owned(), service.anon_key.clone()));
    headers.push(("Content-Type".to_owned(), "application/json".to_owned()));
    if let Some(token) = access_token {
        let mut bearer = "Bearer ".to_owned();
        bearer.append(token);
        headers.push(("Authorization".to_owned(), bearer));
    }
    assert(headers_view(headers@) =~= standard_headers(
        *service,
        match access_token {
            Some(t) => Some(t@),
            None => None,
        },
    ));
    HttpRequest { method, url, headers, body }
}

/// The body of a request that names a mail address and a password.
pub open spec fn credentials(email_id: Seq<char>, password: Seq<char>) -> Seq<char> {
    json_object_text(seq![("email"@, email_id), ("password"@, password)], seq![])
}

/// The body of the request is a JSON object with a text field of that name and text.
pub open spec fn body_says(request: RequestView, name: Seq<char>, text: Seq<char>) -> bool {
    request.body matches Some(body) && says(encode_utf8(body), name, text)
}

/// The body of the request is a JSON object with a number field of that name and number.
pub open spec fn body_counts(request: RequestView, name: Seq<char>, number: usize) -> bool {
    request.body matches Some(body) && says_number(encode_utf8(body), name, number)
}

/// Writes a mail address and a password as a body. Both are read back from it.
fn credentials_body(email_id: &str, password: &str) -> (body: String)
    ensures
        body@ == credentials(email_id@, password@),
        says(encode_utf8(body@), "email"@, email_id@),
        says(encode_utf8(body@), "password"@, password@),
{
    let mut texts: Vec<(String, String)> = Vec::new();
    texts.push(("email".to_owned(), email_id.to_owned()));
    texts.push(("password".to_owned(), password.to_owned()));
    let numbers: Vec<(String, usize)> = Vec::new();
    assert(json_pairs(texts@) =~= seq![("email"@, email_id@), ("password"@, password@)]);
    assert(json_numbers(numbers@) =~= seq![]);
    proof {
        reveal_strlit("email");
        reveal_strlit("password");
        assert("email"@.len() != "password"@.len());
        assert(only_field(json_pairs(texts@), json_numbers(numbers@), 0));
        assert(only_field(json_pairs(texts@), json_numbers(numbers@), 1));
    }
    json_object(&texts, &numbers)
}

/// Writes one field as a body. It is read back from it.
fn single_field_body(name: &str, value: &str) -> (body: String)
    ensures
        body@ == json_object_text(seq![(name@, value@)], seq![]),
        says(encode_utf8(body@), name@, value@),
{
    let mut texts: Vec<(String, String)> = Vec::new();
    texts.push((name.to_owned(), value.to_owned()));
    let numbers: Vec<(String, usize)> = Vec::new();
    assert(json_pairs(texts@) =~= seq![(name@, value@)]);
    assert(json_numbers(numbers@) =~= seq![]);
    assert(only_field(json_pairs(texts@), json_numbers(numbers@), 0));
    json_object(&texts, &numbers)
}

/// The request that logs an account in.
pub fn login_request(service: &Service, email_id: &str, password: &str) -> (request: HttpRequest)
    ensures
        request@ == service_request(
            *service,
            Method::Post,
            "/auth/v1/token?grant_type=password"@,
            None,
            Some(credentials(email_id@, password@)),
        ),
        body_says(request@, "email"@, email_id@),
        body_says(request@, "password"@, password@),
{
    let body = credentials_body(email_id, password);
    make_request(service, Method::Post, "/auth/v1/token?grant_type=password", None, Some(body))
}

/// The request that asks who an access token belongs to.
pub fn user_request(service: &Service, access_token: &str) -> (request: HttpRequest)
    ensures
        request@ == service_request(
            *service,
            Method::Get,
            "/auth/v1/user"@,
            Some(access_token@),
            None,
        ),
{
    make_request(service, Method::Get, "/auth/v1/user", Some(access_token), None)
}

/// The request that logs an account out.
pub fn logout_request(service: &Service, access_token: &str) -> (request: HttpRequest)
    ensures
        request@ == service_request(
            *service,
            Method::Post,
            "/auth/v1/logout"@,
            Some(access_token@),
            None,
        ),
{
    make_request(service, Method::Post, "/auth/v1/logout", Some(access_token), None)
}

/// The request that makes a new account.
pub fn signup_request(service: &Service, email_id: &str, password: &str) -> (request: HttpRequest)
    ensures
        request@ == service_request(
            *service,
            Method::Post,
            "/auth/v1/signup"@,
            None,
            Some(credentials(email_id@, password@)),
        ),
        body_says(request@, "email"@, email_id@),
        body_says(request@, "password"@, password@),
{
    let body = credentials_body(email_id, password);
    make_request(service, Method::Post, "/auth/v1/signup", None, Some(body))
}

/// The request for a mail with a link to reset the password.
pub fn recover_request(service: &Service, email_id: &str) -> (request: HttpRequest)
    ensures
        request@ == service_request(
            *service,
            Method::Post,
            "/auth/v1/recover"@,
            None,
            Some(json_object_text(seq![("email"@, email_id@)], seq![])),
        ),
        body_says(request@, "email"@, email_id@),
{
    let body = single_field_body("email", email_id);
    make_request(service, Method::Post, "/auth/v1/recover", None, Some(body))
}

/// The request that sets a new password.
pub fn new_password_request(service: &Service, access_token: &str, password: &str) -> (request:
    HttpRequest)
    ensures
        request@ == service_request(
            *service,
            Method::Put,
            "/auth/v1/user"@,
            Some(access_token@),
            Some(json_object_text(seq![("password"@, password@)], seq![])),
        ),
        body_says(request@, "password"@, password@),
{
    let body = single_field_body("password", password);
    make_request(service, Method::Put, "/auth/v1/user", Some(access_token), Some(body))
}

/// The request for all cloud saves.
pub fn cloud_data_request(service: &Service, access_token: &str) -> (request: HttpRequest)
    ensures
        request@ == service_request(
            *service,
            Method::Get,
            "/rest/v1/user_data"@,
            Some(access_token@),
            None,
        ),
{
    make_request(service, Method::Get, "/rest/v1/user_data", Some(access_token), None)
}

/// The request that deletes a cloud save.
pub fn delete_save_request(service: &Service, access_token: &str, id: u64) -> (request: HttpRequest)
    ensures
        request@ == service_request(
            *service,
            Method::Delete,
            "/rest/v1/user_data?id=eq."@ + decimal(id as nat),
            Some(access_token@),
            None,
        ),
{
    let mut path = "/rest/v1/user_data?id=eq.".to_owned();
    push_decimal(&mut path, id);
    make_request(service, Method::Delete, path.as_str(), Some(access_token), None)
}

/// The request for the numbers of the saves of an account. It asks for ten of them.
pub open spec fn save_ids_query(service: Service, access_token: Seq<char>, user_id: Seq<char>) -> RequestView {
    let request = service_request(
        service,
        Method::Get,
        "/rest/v1/user_data?user_id=eq."@ + user_id + "&select=save_id"@,
        Some(access_token),
        None,
    );
    RequestView { headers: request.headers.push(("Range"@, "0-9"@)), ..request }
}

/// The request for the numbers of the saves of an account.
pub fn save_ids_request(service: &Service, access_token: &str, user_id: &str) -> (request: HttpRequest)
    ensures
        request@ == save_ids_query(*service, access_token@, user_id@),
{
    let mut path = "/rest/v1/user_data?user_id=eq.".to_owned();
    path.append(user_id);
    path.append("&select=save_id");
    let mut request = make_request(service, Method::Get, path.as_str(), Some(access_token), None);
    let ghost before = request.headers@;
    request.headers.push(("Range".to_owned(), "0-9".to_owned()));
    assert(headers_view(request.headers@) =~= headers_view(before).push(("Range"@, "0-9"@)));
    request
}

/// The body of the request that stores a save.
pub open spec fn save_record(
    user_id: Seq<char>,
    board_data: Seq<char>,
    save_id: usize,
    nonce: Seq<char>,
) -> Seq<char> {
    json_object_text(
        seq![("user_id"@, user_id), ("board_data"@, board_data), ("nonce"@, nonce)],
        seq![("save_id"@, save_id)],
    )
}

/// The request that stores a save.
pub fn store_save_request(
    service: &Service,
    access_token: &str,
    user_id: &str,
    board_data: &str,
    save_id: usize,
    nonce: &str,
) -> (request: HttpRequest)
    ensures
        request@ == service_request(
            *service,
            Method::Post,
            "/rest/v1/user_data"@,
            Some(access_token@),
            Some(save_record(user_id@, board_data@, save_id, nonce@)),
        ),
        body_says(request@, "user_id"@, user_id@),
        body_says(request@, "board_data"@, board_data@),
        body_says(request@, "nonce"@, nonce@),
        body_counts(request@, "save_id"@, save_id),
{
    let mut texts: Vec<(String, String)> = Vec::new();
    texts.push(("user_id".to_owned(), user_id.to_owned()));
    texts.push(("board_data".to_owned(), board_data.to_owned()));
    texts.push(("nonce".to_owned(), nonce.to_owned()));
    let mut numbers: Vec<(String, usize)> = Vec::new();
    numbers.push(("save_id".to_owned(), save_id));
    assert(json_pairs(texts@) =~= seq![
        ("user_id"@, user_id@),
        ("board_data"@, board_data@),
        ("nonce"@, nonce@),
    ]);
    assert(json_numbers(numbers@) =~= seq![("save_id"@, save_id)]);
    proof {
        reveal_strlit("user_id");
        reveal_strlit("board_data");
        reveal_strlit("nonce");
        reveal_strlit("save_id");
        assert("user_id"@[0] != "save_id"@[0]);
        assert("board_data"@.len() == 10 && "nonce"@.len() == 5 && "save_id"@.len() == 7);
        assert(only_field(json_pairs(texts@), json_numbers(numbers@), 0));
        assert(only_field(json_pairs(texts@), json_numbers(numbers@), 1));
        assert(only_field(json_pairs(texts@), json_numbers(numbers@), 2));
        assert(only_number(json_pairs(texts@), json_numbers(numbers@), 0));
    }
    let body = json_object(&texts, &numbers);
    make_request(service, Method::Post, "/rest/v1/user_data", Some(access_token), Some(body))
}

/// Every request goes to the service, with its key and, where there is an account, the token of the
/// account behind the word `Bearer`.
pub proof fn requests_carry_key_and_token(
    service: Service,
    method: Method,
    path: Seq<char>,
    token: Seq<char>,
    body: Option<Seq<char>>,
)
    ensures
        ({
            let request = service_request(service, method, path, Some(token), body);
            &&& request.method == method
            &&& request.url == service.url@ + path
            &&& request.body == body
            &&& request.headers.len() == 3
            &&& request.headers[0] == ("apikey"@, service.anon_key@)
            &&& request.headers[1] == ("Content-Type"@, "application/json"@)
            &&& request.headers[2] == ("Authorization"@, "Bearer "@ + token)
        }),
        ({
            let request = service_request(service, method, path, None, body);
            &&& request.method == method
            &&& request.url == service.url@ + path
            &&& request.body == body
            &&& request.headers.len() == 2
            &&& request.headers[0] == ("apikey"@, service.anon_key@)
            &&& request.headers[1] == ("Content-Type"@, "application/json"@)
        }),
{
}

/// The saves of one user are asked for, by the number of that user, with the token of the account.
pub proof fn saves_are_asked_for_by_user(service: Service, token: Seq<char>, user_id: Seq<char>)
    ensures
        ({
            let request = save_ids_query(service, token, user_id);
            &&& request.method == Method::Get
            &&& request.url == service.url@ + ("/rest/v1/user_data?user_id=eq."@ + user_id
                + "&select=save_id"@)
            &&& request.headers.len() == 4
            &&& request.headers[2] == ("Authorization"@, "Bearer "@ + token)
            &&& request.headers[3] == ("Range"@, "0-9"@)
            &&& request.body is None
        }),
{
}

/// A request is seen as it is, with its headers in their order.
pub proof fn requests_are_seen_whole(request: HttpRequest, i: int)
    ensures
        request@.method == request.method,
        request@.url == request.url@,
        request.body matches Some(body) ==> request@.body == Some(body@),
        request.body is None ==> request@.body is None,
        request@.headers.len() == request.headers@.len(),
        0 <= i < request.headers@.len() ==> request@.headers[i] == (
            request.headers@[i].0@,
            request.headers@[i].1@,
        ),
        request_option(Some(request)) == Some(request@),
        request_option(None) is None,
{
}

/// A body that says something is a JSON object that says it.
pub proof fn bodies_say_what_the_object_says(
    request: RequestView,
    name: Seq<char>,
    text: Seq<char>,
    n: usize,
)
    ensures
        body_says(request, name, text) ==> request.body is Some && says(
            encode_utf8(request.body->0),
            name,
            text,
        ),
        body_counts(request, name, n) ==> request.body is Some && says_number(
            encode_utf8(request.body->0),
            name,
            n,
        ),
{
}

} // verus!
