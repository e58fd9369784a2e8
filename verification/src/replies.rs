//! What the replies of the service mean.

use crate::http::{HttpReply, OK, TOO_MANY_REQUESTS};
use crate::json::{
    column_view, json_column, json_lookup, json_lookup_all, json_member, member_view, says, JsonMember,
};
use crate::text::{text_option, text_result};
use vstd::pervasive::unreached;
use vstd::prelude::*;
use vstd::string::*;

verus! {

/// What the body of a reply is, or why it could not be read.
pub open spec fn body_view(body: Result<Vec<u8>, String>) -> Result<Seq<u8>, Seq<char>> {
    match body {
        Ok(bytes) => Ok(bytes@),
        Err(message) => Err(message@),
    }
}

/// A field of the body of a reply. An error says why the body could not be read or is not JSON.
pub open spec fn body_member(body: Result<Seq<u8>, Seq<char>>, name: Seq<char>) -> Result<
    Option<(Option<Seq<char>>, Seq<char>)>,
    Seq<char>,
> {
    match body {
        Err(message) => Err(message),
        Ok(bytes) => match json_member(bytes, name) {
            Err(message) => Err("error decoding response body: "@ + message),
            Ok(member) => Ok(member),
        },
    }
}

/// Looks a field of the body of a reply up.
pub fn lookup(reply: &HttpReply, name: &str) -> (member: Result<Option<JsonMember>, String>)
    ensures
        member_view(member) == body_member(body_view(reply.body), name@),
{
    match &reply.body {
        Err(message) => Err(message.clone()),
        Ok(bytes) => match json_lookup(bytes.as_slice(), name) {
            Err(message) => {
                let mut text = "error decoding response body: ".to_owned();
                text.append(message.as_str());
                Err(text)
            },
            Ok(member) => Ok(member),
        },
    }
}

/// The field is there and holds something else than text.
pub open spec fn not_text(
    member: Result<Option<(Option<Seq<char>>, Seq<char>)>, Seq<char>>,
) -> bool {
    member matches Ok(Some((text, _))) && text is None
}

/// Tells whether the field is there and holds something else than text.
fn is_not_text(member: &Result<Option<JsonMember>, String>) -> (r: bool)
    ensures
        r == not_text(member_view(*member)),
{
    match member {
        Ok(Some(m)) => m.text.is_none(),
        _ => false,
    }
}

/// Why an account could not be logged in.
#[derive(Debug, PartialEq, Eq)]
pub struct LoginError {
    pub message: String,
    /// What is told to a user on the command line.
    pub notice: Option<String>,
    /// What is logged where there is no command line.
    pub logged: Option<String>,
}

/// Why an account could not be logged in.
#[verifier::ext_equal]
pub struct LoginErrorView {
    pub message: Seq<char>,
    pub notice: Option<Seq<char>>,
    pub logged: Option<Seq<char>>,
}

impl View for LoginError {
    type V = LoginErrorView;

    open spec fn view(&self) -> LoginErrorView {
        LoginErrorView {
            message: self.message@,
            notice: text_option(self.notice),
            logged: text_option(self.logged),
        }
    }
}

/// The access token, or why there is none.
pub open spec fn login_view(outcome: Result<String, LoginError>) -> Result<
    Seq<char>,
    LoginErrorView,
> {
    match outcome {
        Ok(access_token) => Ok(access_token@),
        Err(error) => Err(error@),
    }
}

/// What the user is told where the service was asked too often.
pub const TOO_MANY_REQUESTS_MESSAGE: &'static str =
    "Too many requests, please try again later. Due to the free nature of supabase i am limited to only 4 signup requests per hour. Sorry! 😢";

/// What the user is told where a login was accepted without an access token.
pub const NO_ACCESS_TOKEN_MESSAGE: &'static str =
    "Error logging in, If this is your first login attempt after signup please login again, if it is not please contact the developer";

/// What the reply to a login means: the access token, or why there is none.
pub open spec fn login_outcome(
    status: u16,
    access_token: Result<Option<(Option<Seq<char>>, Seq<char>)>, Seq<char>>,
    error_description: Result<Option<(Option<Seq<char>>, Seq<char>)>, Seq<char>>,
) -> Result<Seq<char>, LoginErrorView> {
    if status == OK {
        match access_token {
            Ok(Some((text, _))) => Ok(text->0),
            Ok(None) => Err(
                LoginErrorView {
                    message: NO_ACCESS_TOKEN_MESSAGE@,
                    notice: Some("Error logging in"@),
                    logged: Some(NO_ACCESS_TOKEN_MESSAGE@),
                },
            ),
            Err(reason) => Err(
                LoginErrorView {
                    message: "Error logging in: "@ + reason,
                    notice: None,
                    logged: None,
                },
            ),
        }
    } else if status == TOO_MANY_REQUESTS {
        Err(
            LoginErrorView {
                message: TOO_MANY_REQUESTS_MESSAGE@,
                notice: Some(TOO_MANY_REQUESTS_MESSAGE@),
                logged: Some(TOO_MANY_REQUESTS_MESSAGE@),
            },
        )
    } else {
        match error_description {
            Ok(Some((_, json))) => Err(
                LoginErrorView {
                    message: "Error logging in: "@ + json,
                    notice: Some(json),
                    logged: Some(json),
                },
            ),
            Ok(None) => Err(
                LoginErrorView {
                    message: "Error logging in"@,
                    notice: Some("Error logging in"@),
                    logged: Some("Error logging in"@),
                },
            ),
            Err(reason) => Err(
                LoginErrorView {
                    message: "Error logging in: "@ + reason,
                    notice: Some("Error logging in: "@ + reason),
                    logged: Some("Error logging in: "@ + reason),
                },
            ),
        }
    }
}

/// Puts a reason behind the words that name the failure.
fn login_failure(reason: &str) -> (message: String)
    ensures
        message@ == "Error logging in: "@ + reason@,
{
    let mut message = "Error logging in: ".to_owned();
    message.append(reason);
    message
}

/// Decides what the reply to a login means, given its status and the two fields that matter.
pub fn decide_login(
    status: u16,
    access_token: Result<Option<JsonMember>, String>,
    error_description: Result<Option<JsonMember>, String>,
) -> (outcome: Result<String, LoginError>)
    requires
        status == OK ==> !not_text(member_view(access_token)),
    ensures
        status == OK ==> (access_token matches Ok(Some(member)) ==> (member.text matches Some(text)
            ==> (outcome matches Ok(token) && token@ == text@))),
        login_view(outcome) == login_outcome(
            status,
            member_view(access_token),
            member_view(error_description),
        ),
{
    if status == OK {
        match access_token {
            Ok(Some(member)) => match member.text {
                Some(text) => Ok(text),
                None => unreached(),
            },
            Ok(None) => Err(
                LoginError {
                    message: NO_ACCESS_TOKEN_MESSAGE.to_owned(),
                    notice: Some("Error logging in".to_owned()),
                    logged: Some(NO_ACCESS_TOKEN_MESSAGE.to_owned()),
                },
            ),
            Err(reason) => Err(
                LoginError {
                    message: login_failure(reason.as_str()),
                    notice: None,
                    logged: None,
                },
            ),
        }
    } else if status == TOO_MANY_REQUESTS {
        Err(
            LoginError {
                message: TOO_MANY_REQUESTS_MESSAGE.to_owned(),
                notice: Some(TOO_MANY_REQUESTS_MESSAGE.to_owned()),
                logged: Some(TOO_MANY_REQUESTS_MESSAGE.to_owned()),
            },
        )
    } else {
        match error_description {
            Ok(Some(member)) => Err(
                LoginError {
                    message: login_failure(member.json.as_str()),
                    notice: Some(member.json.clone()),
                    logged: Some(member.json),
                },
            ),
            Ok(None) => Err(
                LoginError {
                    message: "Error logging in".to_owned(),
                    notice: Some("Error logging in".to_owned()),
                    logged: Some("Error logging in".to_owned()),
                },
            ),
            Err(reason) => Err(
                LoginError {
                    message: login_failure(reason.as_str()),
                    notice: Some(login_failure(reason.as_str())),
                    logged: Some(login_failure(reason.as_str())),
                },
            ),
        }
    }
}

/// Reads the reply to a login. Nothing comes out where the service accepts the login and gives
/// something else than text as the access token.
pub fn read_login_reply(reply: &HttpReply) -> (outcome: Option<Result<String, LoginError>>)
    ensures
        forall|token: Seq<char>|
            reply.status == OK && reply.body is Ok && #[trigger] says(
                reply.body->Ok_0@,
                "access_token"@,
                token,
            ) ==> (outcome matches Some(Ok(t)) && t@ == token),
        outcome is None <==> reply.status == OK && not_text(
            body_member(body_view(reply.body), "access_token"@),
        ),
        outcome matches Some(o) ==> login_view(o) == login_outcome(
            reply.status,
            body_member(body_view(reply.body), "access_token"@),
            body_member(body_view(reply.body), "error_description"@),
        ),
{
    let access_token = lookup(reply, "access_token");
    if reply.status == OK && is_not_text(&access_token) {
        return None;
    }
    let error_description = lookup(reply, "error_description");
    Some(decide_login(reply.status, access_token, error_description))
}

/// What the reply to the question who a token belongs to means: the number of the user, or why it
/// is not known.
pub open spec fn user_outcome(
    status: u16,
    id: Result<Option<(Option<Seq<char>>, Seq<char>)>, Seq<char>>,
) -> Result<Seq<char>, Seq<char>> {
    match id {
        Ok(Some((Some(text), _))) if status == OK => Ok(text),
        _ => Err("Error retrieving user data"@),
    }
}

/// The reply has the form that a successful one must have: it is JSON, and the number of the user, if
/// it is there, is text.
pub open spec fn user_reply_fits(
    status: u16,
    id: Result<Option<(Option<Seq<char>>, Seq<char>)>, Seq<char>>,
) -> bool {
    status == OK ==> id is Ok && !not_text(id)
}

/// Decides what the reply to the question who a token belongs to means, given its status and the
/// field that matters.
pub fn decide_user(status: u16, id: Result<Option<JsonMember>, String>) -> (outcome: Result<
    String,
    String,
>)
    requires
        user_reply_fits(status, member_view(id)),
    ensures
        status == OK ==> (id matches Ok(Some(member)) ==> (member.text matches Some(text) ==> (
        outcome matches Ok(user) && user@ == text@))),
        text_result(outcome) == user_outcome(status, member_view(id)),
{
    if status != OK {
        return Err("Error retrieving user data".to_owned());
    }
    match id {
        Ok(Some(JsonMember { text: Some(text), json: _ })) => Ok(text),
        _ => Err("Error retrieving user data".to_owned()),
    }
}

/// Reads the reply to the question who a token belongs to. Nothing comes out where a successful
/// reply does not have its form.
pub fn read_user_reply(reply: &HttpReply) -> (outcome: Option<Result<String, String>>)
    ensures
        forall|user: Seq<char>|
            reply.status == OK && reply.body is Ok && #[trigger] says(
                reply.body->Ok_0@,
                "id"@,
                user,
            ) ==> (outcome matches Some(Ok(u)) && u@ == user),
        outcome is Some <==> user_reply_fits(
            reply.status,
            body_member(body_view(reply.body), "id"@),
        ),
        outcome matches Some(o) ==> text_result(o) == user_outcome(
            reply.status,
            body_member(body_view(reply.body), "id"@),
        ),
{
    let id = lookup(reply, "id");
    if reply.status == OK && (id.is_err() || is_not_text(&id)) {
        return None;
    }
    Some(decide_user(reply.status, id))
}

/// What a login gives once it is known, or not, who the access token belongs to: the token and the
/// number of the user, or the reason.
pub fn logged_in_as(access_token: String, user_id: Result<String, String>) -> (login: Result<
    (String, String),
    String,
>)
    ensures
        login == match user_id {
            Ok(id) => Ok((access_token, id)),
            Err(reason) => Err(reason),
        },
{
    match user_id {
        Ok(id) => Ok((access_token, id)),
        Err(reason) => Err(reason),
    }
}

/// The numbers of the saves, if every item has one.
pub open spec fn all_numbers(column: Seq<Option<Option<u64>>>) -> Option<Seq<usize>> {
    if forall|i: int|
        0 <= i < column.len() ==> (#[trigger] column[i] matches Some(n) && n is Some) {
        Some(column.map_values(|n: Option<Option<u64>>| n->0->0 as usize))
    } else {
        None
    }
}

/// What the reply to the question for the saves means: their numbers, or that they are not known.
pub open spec fn save_ids_outcome(
    status: u16,
    column: Result<Option<Seq<Option<Option<u64>>>>, Seq<char>>,
) -> Result<Seq<usize>, Seq<char>> {
    match column {
        Ok(Some(items)) if status == OK && all_numbers(items) is Some => Ok(
            all_numbers(items)->0,
        ),
        _ => Err("Error getting save ids"@),
    }
}

/// The numbers, or the message.
pub open spec fn numbers_result(outcome: Result<Vec<usize>, String>) -> Result<
    Seq<usize>,
    Seq<char>,
> {
    match outcome {
        Ok(numbers) => Ok(numbers@),
        Err(message) => Err(message@),
    }
}

/// Decides what the reply to the question for the saves means, given its status and the column of
/// numbers.
pub fn decide_save_ids(status: u16, column: Result<Option<Vec<Option<Option<u64>>>>, String>) -> (outcome:
    Result<Vec<usize>, String>)
    ensures
        numbers_result(outcome) == save_ids_outcome(status, column_view(column)),
{
    if status != OK {
        return Err("Error getting save ids".to_owned());
    }
    match column {
        Ok(Some(items)) => {
            let mut numbers: Vec<usize> = Vec::new();
            let mut i: usize = 0;
            while i < items.len()
                invariant
                    status == OK,
                    column_view(column) == Ok::<_, Seq<char>>(Some(items@)),
                    i <= items@.len(),
                    numbers@.len() == i,
                    forall|k: int|
                        0 <= k < i ==> (#[trigger] items@[k] matches Some(n) && n is Some),
                    forall|k: int| 0 <= k < i ==> #[trigger] numbers@[k] == items@[k]->0->0 as usize,
                decreases items@.len() - i,
            {
                match items[i] {
                    Some(Some(n)) => {
                        numbers.push(n as usize);
                    },
                    _ => {
                        return Err("Error getting save ids".to_owned());
                    },
                }
                i = i + 1;
            }
            assert(numbers@ =~= items@.map_values(|n: Option<Option<u64>>| n->0->0 as usize));
            Ok(numbers)
        },
        _ => Err("Error getting save ids".to_owned()),
    }
}

/// The numbers in the body of a reply.
pub open spec fn body_column(body: Result<Seq<u8>, Seq<char>>, name: Seq<char>) -> Result<
    Option<Seq<Option<Option<u64>>>>,
    Seq<char>,
> {
    match body {
        Err(message) => Err(message),
        Ok(bytes) => json_column(bytes, name),
    }
}

/// Reads the reply to the question for the saves. Without a reply the request failed.
pub fn read_save_ids_reply(reply: Option<&HttpReply>) -> (outcome: Result<Vec<usize>, String>)
    ensures
        reply matches Some(r) ==> numbers_result(outcome) == save_ids_outcome(
            r.status,
            body_column(body_view(r.body), "save_id"@),
        ),
        reply is None ==> numbers_result(outcome) == Err::<Seq<usize>, _>(
            "Error getting save ids"@,
        ),
{
    match reply {
        None => Err("Error getting save ids".to_owned()),
        Some(r) => match &r.body {
            Err(message) => decide_save_ids(r.status, Err(message.clone())),
            Ok(bytes) => decide_save_ids(
                r.status,
                json_lookup_all(bytes.as_slice(), "save_id"),
            ),
        },
    }
}

/// What is read of a reply is what the reply holds.
pub proof fn replies_are_seen_as_they_are(
    bytes: Vec<u8>,
    message: String,
    error: LoginError,
    numbers: Vec<usize>,
)
    ensures
        body_view(Ok(bytes)) == Ok::<_, Seq<char>>(bytes@),
        body_view(Err(message)) == Err::<Seq<u8>, _>(message@),
        login_view(Ok(message)) == Ok::<_, LoginErrorView>(message@),
        login_view(Err(error)) == Err::<Seq<char>, _>(error@),
        error@.message == error.message@,
        error.notice matches Some(notice) ==> error@.notice == Some(notice@),
        error.notice is None ==> error@.notice is None,
        error.logged matches Some(logged) ==> error@.logged == Some(logged@),
        error.logged is None ==> error@.logged is None,
        numbers_result(Ok(numbers)) == Ok::<_, Seq<char>>(numbers@),
        numbers_result(Err(message)) == Err::<Seq<usize>, _>(message@),
{
}

/// A field of a body is the field of the JSON object in it, and where there is none the reason is passed
/// on.
pub proof fn fields_are_those_of_the_object(body: Seq<u8>, name: Seq<char>, reason: Seq<char>)
    ensures
        json_member(body, name) matches Ok(member) ==> body_member(Ok(body), name) == Ok::<
            _,
            Seq<char>,
        >(member),
        json_member(body, name) matches Err(why) ==> body_member(Ok(body), name) == Err::<
            Option<(Option<Seq<char>>, Seq<char>)>,
            _,
        >("error decoding response body: "@ + why),
        body_member(Err(reason), name) == Err::<Option<(Option<Seq<char>>, Seq<char>)>, _>(reason),
        body_column(Ok(body), name) == json_column(body, name),
        body_column(Err(reason), name) == Err::<Option<Seq<Option<Option<u64>>>>, _>(reason),
{
}

/// A login gives the whole text of the field `access_token` of an accepted reply, and a user has the whole
/// text of the field `id`.
pub proof fn tokens_and_users_are_taken_whole(
    body: Seq<u8>,
    text: Seq<char>,
    other: Result<Option<(Option<Seq<char>>, Seq<char>)>, Seq<char>>,
)
    ensures
        says(body, "access_token"@, text) ==> login_outcome(
            OK,
            body_member(Ok(body), "access_token"@),
            other,
        ) == Ok::<_, LoginErrorView>(text),
        says(body, "id"@, text) ==> user_outcome(OK, body_member(Ok(body), "id"@)) == Ok::<
            _,
            Seq<char>,
        >(text),
{
}

/// Nobody is logged in by a reply that is not accepted or that holds no token. What the service says of
/// the reason is passed on whole, and without words of its own the failure is named all the same.
pub proof fn logins_fail_with_the_reason(
    status: u16,
    access_token: Result<Option<(Option<Seq<char>>, Seq<char>)>, Seq<char>>,
    error_description: Result<Option<(Option<Seq<char>>, Seq<char>)>, Seq<char>>,
)
    ensures
        status != OK ==> login_outcome(status, access_token, error_description) is Err,
        access_token is Err ==> login_outcome(status, access_token, error_description) is Err,
        access_token == Ok::<Option<(Option<Seq<char>>, Seq<char>)>, Seq<char>>(None)
            ==> login_outcome(status, access_token, error_description) is Err,
        status == OK ==> (access_token matches Err(reason) ==> (login_outcome(
            status,
            access_token,
            error_description,
        ) matches Err(error) && error.message == "Error logging in: "@ + reason && error.notice is None
            && error.logged is None)),
        status != OK && status != TOO_MANY_REQUESTS ==> (error_description matches Ok(Some((_, json)))
            ==> (login_outcome(status, access_token, error_description) matches Err(error)
            && error.message == "Error logging in: "@ + json && error.notice == Some(json)
            && error.logged == Some(json))),
        status != OK && status != TOO_MANY_REQUESTS ==> (error_description matches Err(reason) ==> (
        login_outcome(status, access_token, error_description) matches Err(error) && error.message
            == "Error logging in: "@ + reason && error.notice == Some(error.message) && error.logged
            == Some(error.message))),
        status == TOO_MANY_REQUESTS ==> (login_outcome(
            status,
            access_token,
            error_description,
        ) matches Err(error) && error.message == TOO_MANY_REQUESTS_MESSAGE@),
{
}

/// A user is known only by an accepted reply that holds a text.
pub proof fn users_are_known_by_accepted_replies(
    status: u16,
    id: Result<Option<(Option<Seq<char>>, Seq<char>)>, Seq<char>>,
)
    ensures
        user_outcome(status, id) is Ok <==> status == OK && (id matches Ok(Some((Some(_), _)))),
        user_outcome(status, id) matches Ok(user) ==> (id matches Ok(Some((Some(text), _))) && user
            == text),
{
}

/// The number of every save is given, in the order of the list, and none where one of them has no
/// number or the reply is not accepted.
pub proof fn every_save_has_its_number(
    status: u16,
    items: Seq<Option<Option<u64>>>,
    reason: Seq<char>,
)
    ensures
        save_ids_outcome(status, Ok(Some(items))) matches Ok(ids) ==> {
            &&& status == OK
            &&& ids.len() == items.len()
            &&& forall|i: int|
                0 <= i < items.len() ==> (#[trigger] items[i] matches Some(Some(n)) && ids[i]
                    == n as usize)
        },
        status == OK && (forall|i: int|
            0 <= i < items.len() ==> (#[trigger] items[i] matches Some(Some(_))))
            ==> save_ids_outcome(status, Ok(Some(items))) is Ok,
        save_ids_outcome(status, Ok(None)) is Err,
        save_ids_outcome(status, Err(reason)) is Err,
{
}

/// A successful reply has its form exactly where it is JSON and its number, if it is there, is text; any
/// other reply has it always.
pub proof fn replies_have_their_form(
    status: u16,
    id: Result<Option<(Option<Seq<char>>, Seq<char>)>, Seq<char>>,
    json: Seq<char>,
    text: Seq<char>,
)
    ensures
        status != OK ==> user_reply_fits(status, id),
        user_reply_fits(OK, Ok(Some((Some(text), json)))),
        user_reply_fits(OK, Ok(None)),
        !user_reply_fits(OK, Ok(Some((None, json)))),
        id is Err ==> !user_reply_fits(OK, id),
        not_text(id) <==> (id matches Ok(Some((None, _)))),
{
}

/// A column of numbers is seen as it is.
pub proof fn columns_are_seen_as_they_are(list: Vec<Option<Option<u64>>>, message: String)
    ensures
        column_view(Ok(Some(list))) == Ok::<_, Seq<char>>(Some(list@)),
        column_view(Ok(None)) == Ok::<Option<Seq<Option<Option<u64>>>>, Seq<char>>(None),
        column_view(Err(message)) == Err::<Option<Seq<Option<Option<u64>>>>, _>(message@),
{
}

} // verus!
