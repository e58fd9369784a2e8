//! The account: logging in and out, signing up, and resetting the password.

use crate::app::{App, AppView, LoginView, ToastKind, ToastView, UiMode, UserLoginData};
use crate::constants::MIN_TIME_BETWEEN_SENDING_RESET_LINK;
use crate::http::{
    body_says, credentials, logout_request, new_password_request, recover_request, request_option,
    service_request, signup_request, HttpReply, HttpRequest, Method, Service, NO_CONTENT, OK,
    TOO_MANY_REQUESTS, UNPROCESSABLE_ENTITY,
};
use crate::json::{json_member, json_object_text, member_view, says, JsonMember};
use crate::password::{
    ascii_password_status, check_for_safe_password, password_fault, password_fault_message, password_status,
    PasswordStatus,
};
use crate::replies::{body_member, body_view, lookup, TOO_MANY_REQUESTS_MESSAGE};
use crate::text::{
    decimal, first_piece_goes_to_the_separator, last_piece_starts_at_the_separator, nowhere, occurs_at,
    pieces, push_decimal, split, text_option, views,
};
use vstd::prelude::*;
use vstd::string::*;
use vstd::utf8::*;

verus! {

/// Why a login is refused before the service is asked.
pub open spec fn login_refusal(app: AppView, email_id: Seq<char>, password: Seq<char>) -> Option<
    Seq<char>,
> {
    if app.logged_in() {
        Some("Already logged in, Please logout first"@)
    } else if email_id.len() == 0 {
        Some("Email cannot be empty"@)
    } else if password.len() == 0 {
        Some("Password cannot be empty"@)
    } else {
        None
    }
}

/// The state after a login was begun. Somebody who is already logged in is told nothing of waiting.
pub open spec fn login_begun(app: AppView, email_id: Seq<char>, password: Seq<char>) -> AppView {
    let told = if app.logged_in() {
        app
    } else {
        app.info("Logging in, please wait..."@)
    };
    match login_refusal(app, email_id, password) {
        Some(reason) => told.error(reason),
        None => told,
    }
}

/// The state after the service said who logged in.
pub open spec fn login_known(
    app: AppView,
    access_token: Seq<char>,
    email_id: Seq<char>,
    user_id: Seq<char>,
) -> AppView {
    AppView {
        login: LoginView {
            auth_token: Some(access_token),
            email_id: Some(email_id),
            user_id: Some(user_id),
        },
        ..app
    }
}

/// The state after the service replied to a logout.
pub open spec fn logged_out(app: AppView, status: u16) -> AppView {
    if status == NO_CONTENT {
        (AppView { login: LoginView::nobody(), ..app }).info("👍 Logged out"@)
    } else {
        app.error("Error logging out"@)
    }
}

/// The link is refused because the last one was sent too short a time ago; the number says how many
/// whole seconds are left.
pub open spec fn reset_link_wait(sent: Option<u128>, now: u128) -> Option<nat> {
    match sent {
        None => None,
        Some(then) => {
            let elapsed = if now >= then {
                now - then
            } else {
                0
            };
            let least = MIN_TIME_BETWEEN_SENDING_RESET_LINK * 1_000_000_000;
            if elapsed < least {
                Some(((least - elapsed) / 1_000_000_000) as nat)
            } else {
                None
            }
        },
    }
}

/// What the user is told who asks for a link too soon.
pub open spec fn wait_message(seconds: nat) -> Seq<char> {
    "Please wait for "@ + decimal(seconds)
        + " seconds before sending another reset password email"@
}

/// Why a mail with a link to reset the password is refused before the service is asked.
pub open spec fn reset_email_refusal(app: AppView, email_id: Seq<char>, now: u128) -> Option<
    Seq<char>,
> {
    match reset_link_wait(app.reset_link_sent, now) {
        Some(seconds) => Some(wait_message(seconds)),
        None => if email_id.len() == 0 {
            Some("Email cannot be empty"@)
        } else {
            None
        },
    }
}

/// The state after a mail with a link to reset the password was asked for.
pub open spec fn reset_email_begun(app: AppView, email_id: Seq<char>, now: u128) -> AppView {
    match reset_email_refusal(app, email_id, now) {
        Some(reason) => app.error(reason),
        None => app.info("Sending reset password email, please wait..."@),
    }
}

/// The state after the service replied to the request for such a mail.
pub open spec fn reset_email_answered(app: AppView, status: u16, now: u128) -> AppView {
    if status == OK {
        (AppView { reset_link_sent: Some(now), ..app }).info("👍 Reset password email sent"@)
    } else if status == TOO_MANY_REQUESTS {
        app.error(TOO_MANY_REQUESTS_MESSAGE@)
    } else {
        app.error("Error sending reset password email"@)
    }
}

/// What is wrong with two passwords that should be the same. A password that is too long is no
/// reason to refuse it.
pub open spec fn password_refusal(password: Seq<char>, confirm_password: Seq<char>) -> Option<
    Seq<char>,
> {
    let status = password_status(password);
    if password.len() == 0 || confirm_password.len() == 0 {
        Some("Password cannot be empty"@)
    } else if password != confirm_password {
        Some("Passwords do not match"@)
    } else if status == PasswordStatus::TooLong {
        None
    } else {
        password_fault(status)
    }
}

/// Of a password of ASCII characters it is known what counts as which sort of character.
pub open spec fn judged_plainly(password: Seq<char>) -> bool {
    is_ascii_chars(password) ==> password_status(password) == ascii_password_status(password)
}

/// The state after the user was told that a password is too long, if it is.
pub open spec fn told_of_length(app: AppView, password: Seq<char>) -> AppView {
    if password_status(password) == PasswordStatus::TooLong {
        app.error(password_fault(PasswordStatus::TooLong)->0)
    } else {
        app
    }
}

/// Why a new account is refused before the service is asked.
pub open spec fn signup_refusal(
    app: AppView,
    email_id: Seq<char>,
    password: Seq<char>,
    confirm_password: Seq<char>,
) -> Option<Seq<char>> {
    if app.logged_in() {
        Some("Already logged in"@)
    } else if email_id.len() == 0 {
        Some("Email cannot be empty"@)
    } else {
        password_refusal(password, confirm_password)
    }
}

/// The state after the making of a new account was begun.
pub open spec fn signup_begun(
    app: AppView,
    email_id: Seq<char>,
    password: Seq<char>,
    confirm_password: Seq<char>,
) -> AppView {
    match signup_refusal(app, email_id, password, confirm_password) {
        Some(reason) => app.error(reason),
        None => told_of_length(app, password).info("Signing up, please wait..."@),
    }
}

/// The service has sent a mail to confirm the new account.
pub open spec fn confirmation_sent(
    status: u16,
    sent_at: Result<Option<(Option<Seq<char>>, Seq<char>)>, Seq<char>>,
) -> bool {
    status == OK && (sent_at matches Ok(Some((text, _))) && text is Some)
}

/// The state after the service replied to the making of a new account.
pub open spec fn signup_answered(
    app: AppView,
    status: u16,
    sent_at: Result<Option<(Option<Seq<char>>, Seq<char>)>, Seq<char>>,
) -> AppView {
    if confirmation_sent(status, sent_at) {
        app.info("👍 Confirmation email sent"@)
    } else if status == TOO_MANY_REQUESTS {
        app.error(TOO_MANY_REQUESTS_MESSAGE@)
    } else {
        app.error("Error signing up"@)
    }
}

/// The state after the new encryption key was saved, or could not be.
pub open spec fn key_saved(app: AppView, path: Option<Seq<char>>) -> AppView {
    match path {
        None => app.error("Error saving encryption key"@),
        Some(p) => app.info("👍 Encryption key saved at "@ + p).warning(
            "Please keep this key safe, you will need it to decrypt your data, you will not be able to recover your data without it"@,
        ),
    }
}

/// Why a new password is refused before the service is asked.
pub open spec fn new_password_refusal(
    reset_link: Seq<char>,
    new_password: Seq<char>,
    confirm_password: Seq<char>,
) -> Option<Seq<char>> {
    if reset_link.len() == 0 {
        Some("Reset link cannot be empty"@)
    } else {
        password_refusal(new_password, confirm_password)
    }
}

/// The state after the setting of a new password was begun.
pub open spec fn reset_begun(
    app: AppView,
    reset_link: Seq<char>,
    new_password: Seq<char>,
    confirm_password: Seq<char>,
) -> AppView {
    match new_password_refusal(reset_link, new_password, confirm_password) {
        Some(reason) => app.error(reason),
        None => told_of_length(app, new_password).info("Resetting password, please wait..."@),
    }
}

/// The access token in the address to which a reset link leads: what stands behind the last
/// `access_token=`, up to the next `&expires_in`.
pub open spec fn token_in_url(url: Seq<char>) -> Seq<char> {
    pieces(pieces(url, "access_token="@).last(), "&expires_in"@)[0]
}

impl App {
    /// Begins a login. The service is to be asked where this says so.
    pub fn begin_login(&mut self, email_id: &str, password: &str) -> (go_on: bool)
        ensures
            go_on == (login_refusal(old(self)@, email_id@, password@) is None),
            final(self)@ == login_begun(old(self)@, email_id@, password@),
    {
        if self.user_login_data.auth_token.is_some() {
            self.send_error_toast("Already logged in, Please logout first", None);
            return false;
        }
        self.send_info_toast("Logging in, please wait...", None);
        if email_id.is_empty() {
            self.send_error_toast("Email cannot be empty", None);
            false
        } else if password.is_empty() {
            self.send_error_toast("Password cannot be empty", None);
            false
        } else {
            true
        }
    }

    /// Takes note of who logged in. The access token is to be saved where this says so.
    pub fn set_login(&mut self, access_token: String, email_id: String, user_id: String) -> (save_token:
        bool)
        ensures
            final(self)@ == login_known(old(self)@, access_token@, email_id@, user_id@),
            save_token == old(self)@.config.auto_login,
    {
        self.user_login_data = UserLoginData {
            auth_token: Some(access_token),
            email_id: Some(email_id),
            user_id: Some(user_id),
        };
        self.config.auto_login
    }

    /// Ends a login.
    pub fn finish_login(&mut self)
        ensures
            final(self)@ == old(self)@.info("👍 Logged in"@),
    {
        self.send_info_toast("👍 Logged in", None);
    }

    /// Begins to log out, and gives the request for it.
    pub fn begin_logout(&mut self, service: &Service) -> (request: Option<HttpRequest>)
        ensures
            final(self)@ == if old(self)@.logged_in() {
                old(self)@.info("Logging out, please wait..."@)
            } else {
                old(self)@.error("Not logged in"@)
            },
            request_option(request) == if old(self)@.logged_in() {
                Some(
                    service_request(
                        *service,
                        Method::Post,
                        "/auth/v1/logout"@,
                        old(self)@.login.auth_token,
                        None,
                    ),
                )
            } else {
                None
            },
    {
        let request = match &self.user_login_data.auth_token {
            None => None,
            Some(token) => Some(logout_request(service, token.as_str())),
        };
        if request.is_none() {
            self.send_error_toast("Not logged in", None);
        } else {
            self.send_info_toast("Logging out, please wait...", None);
        }
        request
    }

    /// Ends to log out, given the status of the reply.
    pub fn finish_logout(&mut self, status: u16)
        ensures
            final(self)@ == logged_out(old(self)@, status),
    {
        if status == NO_CONTENT {
            self.user_login_data = UserLoginData::default();
            self.send_info_toast("👍 Logged out", None);
        } else {
            self.send_error_toast("Error logging out", None);
        }
    }

    /// Tells the user what is wrong with two passwords that should be the same, and whether that
    /// is a reason to stop.
    fn refuse_password(&mut self, password: &String, confirm_password: &String) -> (refused: bool)
        ensures
            refused == (password_refusal(password@, confirm_password@) is Some),
            final(self)@ == match password_refusal(password@, confirm_password@) {
                Some(reason) => old(self)@.error(reason),
                None => told_of_length(old(self)@, password@),
            },
            password@.len() > 0 && password@ == confirm_password@ ==> judged_plainly(password@),
    {
        if password.as_str().is_empty() || confirm_password.as_str().is_empty() {
            self.send_error_toast("Password cannot be empty", None);
            return true;
        }
        if !(*password == *confirm_password) {
            self.send_error_toast("Passwords do not match", None);
            return true;
        }
        let status = check_for_safe_password(password.as_str());
        match password_fault_message(status) {
            None => false,
            Some(message) => {
                self.send_error_toast(message.as_str(), None);
                status != PasswordStatus::TooLong
            },
        }
    }

    /// Begins to make a new account, and gives the request for it.
    pub fn begin_signup(
        &mut self,
        service: &Service,
        email_id: &str,
        password: &String,
        confirm_password: &String,
    ) -> (request: Option<HttpRequest>)
        ensures
            final(self)@ == signup_begun(old(self)@, email_id@, password@, confirm_password@),
            !old(self)@.logged_in() && email_id@.len() > 0 && password@.len() > 0 && password@
                == confirm_password@ ==> judged_plainly(password@),
            request_option(request) == match signup_refusal(
                old(self)@,
                email_id@,
                password@,
                confirm_password@,
            ) {
                Some(_) => None,
                None => Some(
                    service_request(
                        *service,
                        Method::Post,
                        "/auth/v1/signup"@,
                        None,
                        Some(credentials(email_id@, password@)),
                    ),
                ),
            },
            request matches Some(r) ==> body_says(r@, "email"@, email_id@) && body_says(
                r@,
                "password"@,
                password@,
            ),
    {
        if self.user_login_data.auth_token.is_some() {
            self.send_error_toast("Already logged in", None);
            return None;
        }
        if email_id.is_empty() {
            self.send_error_toast("Email cannot be empty", None);
            return None;
        }
        if self.refuse_password(password, confirm_password) {
            return None;
        }
        self.send_info_toast("Signing up, please wait...", None);
        Some(signup_request(service, email_id, password.as_str()))
    }

    /// Decides what the reply to the making of a new account means, given its status and the field
    /// that matters. A new encryption key is to be made and saved where this says so.
    pub fn decide_signup(&mut self, status: u16, sent_at: Result<Option<JsonMember>, String>) -> (make_key:
        bool)
        ensures
            make_key == confirmation_sent(status, member_view(sent_at)),
            final(self)@ == signup_answered(old(self)@, status, member_view(sent_at)),
    {
        let confirmed: bool = match sent_at {
            Ok(Some(member)) => member.text.is_some(),
            _ => false,
        };
        if status == OK && confirmed {
            self.send_info_toast("👍 Confirmation email sent", None);
            true
        } else if status == TOO_MANY_REQUESTS {
            self.send_error_toast(TOO_MANY_REQUESTS_MESSAGE, None);
            false
        } else {
            self.send_error_toast("Error signing up", None);
            false
        }
    }

    /// Reads the reply to the making of a new account. A new encryption key is to be made and saved
    /// where this says so.
    pub fn read_signup_reply(&mut self, reply: &HttpReply) -> (make_key: bool)
        ensures
            make_key == confirmation_sent(
                reply.status,
                body_member(body_view(reply.body), "confirmation_sent_at"@),
            ),
            final(self)@ == signup_answered(
                old(self)@,
                reply.status,
                body_member(body_view(reply.body), "confirmation_sent_at"@),
            ),
    {
        let sent_at = lookup(reply, "confirmation_sent_at");
        self.decide_signup(reply.status, sent_at)
    }

    /// Ends the making of a new account. `path` is where the new encryption key was saved, or
    /// nothing where it could not be.
    pub fn finish_signup(&mut self, path: Option<String>)
        ensures
            final(self)@ == key_saved(old(self)@, text_option(path)),
    {
        match path {
            None => {
                self.send_error_toast("Error saving encryption key", None);
            },
            Some(path) => {
                let mut message = "👍 Encryption key saved at ".to_owned();
                message.append(path.as_str());
                self.send_info_toast(message.as_str(), None);
                self.send_warning_toast(
                    "Please keep this key safe, you will need it to decrypt your data, you will not be able to recover your data without it",
                    None,
                );
            },
        }
    }

    /// Asks for a mail with a link to reset the password, and gives the request for it. `now` is the
    /// time, in nanoseconds of a clock that never goes back.
    pub fn begin_reset_email(&mut self, service: &Service, email_id: &str, now: u128) -> (request:
        Option<HttpRequest>)
        ensures
            final(self)@ == reset_email_begun(old(self)@, email_id@, now),
            request_option(request) == match reset_email_refusal(old(self)@, email_id@, now) {
                Some(_) => None,
                None => Some(
                    service_request(
                        *service,
                        Method::Post,
                        "/auth/v1/recover"@,
                        None,
                        Some(json_object_text(seq![("email"@, email_id@)], seq![])),
                    ),
                ),
            },
            request matches Some(r) ==> body_says(r@, "email"@, email_id@),
    {
        if let Some(then) = self.last_reset_password_link_sent_time {
            let elapsed: u128 = if now >= then {
                now - then
            } else {
                0
            };
            let least: u128 = MIN_TIME_BETWEEN_SENDING_RESET_LINK as u128 * 1_000_000_000;
            if elapsed < least {
                let seconds: u64 = ((least - elapsed) / 1_000_000_000) as u64;
                let mut message = "Please wait for ".to_owned();
                push_decimal(&mut message, seconds);
                message.append(" seconds before sending another reset password email");
                self.send_error_toast(message.as_str(), None);
                return None;
            }
        }
        if email_id.is_empty() {
            self.send_error_toast("Email cannot be empty", None);
            return None;
        }
        self.send_info_toast("Sending reset password email, please wait...", None);
        Some(recover_request(service, email_id))
    }

    /// Ends to ask for a mail with a link to reset the password, given the status of the reply.
    pub fn finish_reset_email(&mut self, status: u16, now: u128)
        ensures
            final(self)@ == reset_email_answered(old(self)@, status, now),
    {
        if status == OK {
            self.last_reset_password_link_sent_time = Some(now);
            self.send_info_toast("👍 Reset password email sent", None);
        } else if status == TOO_MANY_REQUESTS {
            self.send_error_toast(TOO_MANY_REQUESTS_MESSAGE, None);
        } else {
            self.send_error_toast("Error sending reset password email", None);
        }
    }

    /// Begins to set a new password. The reset link is to be followed where this says so.
    pub fn begin_reset_password(
        &mut self,
        reset_link: &str,
        new_password: &String,
        confirm_password: &String,
    ) -> (go_on: bool)
        ensures
            go_on == (new_password_refusal(reset_link@, new_password@, confirm_password@) is None),
            final(self)@ == reset_begun(
                old(self)@,
                reset_link@,
                new_password@,
                confirm_password@,
            ),
            reset_link@.len() > 0 && new_password@.len() > 0 && new_password@ == confirm_password@
                ==> judged_plainly(new_password@),
    {
        if reset_link.is_empty() {
            self.send_error_toast("Reset link cannot be empty", None);
            return false;
        }
        if self.refuse_password(new_password, confirm_password) {
            return false;
        }
        self.send_info_toast("Resetting password, please wait...", None);
        true
    }

    /// Goes on to set a new password after the reset link was followed. A link that is valid leads to
    /// an address that cannot be reached; `error_url` is that address. Without it, the link was
    /// not valid.
    pub fn follow_reset_link(
        &mut self,
        service: &Service,
        error_url: Option<String>,
        new_password: &str,
    ) -> (request: Option<HttpRequest>)
        ensures
            final(self)@ == match error_url {
                None => old(self)@.error("Error verifying reset password link"@),
                Some(_) => old(self)@,
            },
            request_option(request) == match error_url {
                None => None,
                Some(url) => Some(
                    service_request(
                        *service,
                        Method::Put,
                        "/auth/v1/user"@,
                        Some(token_in_url(url@)),
                        Some(json_object_text(seq![("password"@, new_password@)], seq![])),
                    ),
                ),
            },
            request matches Some(r) ==> body_says(r@, "password"@, new_password@),
    {
        match error_url {
            None => {
                self.send_error_toast("Error verifying reset password link", None);
                None
            },
            Some(url) => {
                let token = access_token_in_url(url.as_str());
                Some(new_password_request(service, token.as_str(), new_password))
            },
        }
    }

    /// Tells whether the screen for a new password is to be left, given the status of the reply.
    pub fn leaves_reset_screen(&self, status: u16) -> (leaves: bool)
        ensures
            leaves == (status == OK && self@.ui_mode == UiMode::ResetPassword),
    {
        status == OK && self.is_on_screen(UiMode::ResetPassword)
    }

    /// Ends to set a new password, given the status of the reply.
    pub fn finish_reset_password(&mut self, status: u16)
        ensures
            final(self)@ == if status == OK {
                old(self)@.info("👍 Password reset successful"@)
            } else if status == UNPROCESSABLE_ENTITY {
                old(self)@.error(
                    "Error resetting password, new password cannot be same as old password"@,
                )
            } else {
                old(self)@.error("Error resetting password"@)
            },
    {
        if status == OK {
            self.send_info_toast("👍 Password reset successful", None);
        } else if status == UNPROCESSABLE_ENTITY {
            self.send_error_toast(
                "Error resetting password, new password cannot be same as old password",
                None,
            );
        } else {
            self.send_error_toast("Error resetting password", None);
        }
    }
}

/// Every text has a first piece.
proof fn lemma_some_piece(text: Seq<char>, separator: Seq<char>)
    requires
        separator.len() > 0,
    ensures
        pieces(text, separator).len() >= 1,
{
}

/// Finds the access token in the address to which a reset link leads.
pub fn access_token_in_url(url: &str) -> (token: String)
    ensures
        token@ == token_in_url(url@),
{
    proof {
        reveal_strlit("access_token=");
        reveal_strlit("&expires_in");
        lemma_some_piece(url@, "access_token="@);
    }
    let parts = split(url, "access_token=");
    assert(views(parts@).len() == parts@.len());
    let last = &parts[parts.len() - 1];
    assert(views(parts@).last() == last@);
    proof {
        lemma_some_piece(last@, "&expires_in"@);
    }
    let mut tail = split(last.as_str(), "&expires_in");
    assert(views(tail@).len() == tail@.len());
    assert(views(tail@)[0] == tail@[0]@);
    tail.swap_remove(0)
}

/// Whatever is asked for, and whether or not it is refused, beginning it only tells the user something.
pub proof fn beginning_only_tells(
    app: AppView,
    email_id: Seq<char>,
    reset_link: Seq<char>,
    password: Seq<char>,
    confirm_password: Seq<char>,
    now: u128,
)
    ensures
        login_begun(app, email_id, password).only_told(app),
        signup_begun(app, email_id, password, confirm_password).only_told(app),
        reset_begun(app, reset_link, password, confirm_password).only_told(app),
        reset_email_begun(app, email_id, now).only_told(app),
{
}

/// Nobody logs in or makes an account while somebody is logged in, and after a logout everything but
/// what the user was told is as if nobody had logged in.
pub proof fn logout_undoes_login(
    app: AppView,
    access_token: Seq<char>,
    email_id: Seq<char>,
    user_id: Seq<char>,
    password: Seq<char>,
    confirm_password: Seq<char>,
)
    ensures
        ({
            let during = login_known(app, access_token, email_id, user_id);
            let after = logged_out(during, NO_CONTENT);
            &&& during.logged_in()
            &&& login_refusal(during, email_id, password) is Some
            &&& signup_refusal(during, email_id, password, confirm_password) is Some
            &&& !after.logged_in()
            &&& after == (AppView { login: LoginView::nobody(), toasts: after.toasts, ..app })
            &&& email_id.len() > 0 && password.len() > 0 ==> login_refusal(
                after,
                email_id,
                password,
            ) is None
        }),
{
}

/// A login that the service does not end is kept.
pub proof fn failed_logout_keeps_login(app: AppView, status: u16)
    requires
        status != NO_CONTENT,
    ensures
        logged_out(app, status).login == app.login,
{
}

/// Whoever is logged in stays known by mail address and number.
pub proof fn login_stays_complete(
    app: AppView,
    email_id: Seq<char>,
    reset_link: Seq<char>,
    password: Seq<char>,
    confirm_password: Seq<char>,
    access_token: Seq<char>,
    user_id: Seq<char>,
    status: u16,
    now: u128,
)
    requires
        app.login.complete(),
    ensures
        login_begun(app, email_id, password).login.complete(),
        login_known(app, access_token, email_id, user_id).login.complete(),
        logged_out(app, status).login.complete(),
        signup_begun(app, email_id, password, confirm_password).login.complete(),
        reset_email_begun(app, email_id, now).login.complete(),
        reset_email_answered(app, status, now).login.complete(),
        reset_begun(app, reset_link, password, confirm_password).login.complete(),
{
}

/// After a mail with a link was sent, another one is refused for as long as the service asks for, and
/// for no longer.
pub proof fn reset_mails_are_spaced(app: AppView, then: u128, now: u128, email_id: Seq<char>)
    requires
        then <= now,
        email_id.len() > 0,
    ensures
        reset_email_refusal(reset_email_answered(app, OK, then), email_id, now) is Some <==> now - then
            < MIN_TIME_BETWEEN_SENDING_RESET_LINK * 1_000_000_000,
        reset_link_wait(Some(then), now) matches Some(seconds) ==> seconds
            <= MIN_TIME_BETWEEN_SENDING_RESET_LINK,
{
}

/// A password that is repeated rightly is accepted where it is strong or too long, and nowhere else.
pub proof fn accepted_passwords(password: Seq<char>)
    requires
        password.len() > 0,
    ensures
        password_refusal(password, password) is None <==> password_status(password)
            == PasswordStatus::Strong || password_status(password) == PasswordStatus::TooLong,
{
}

/// The token in an address stands behind the last `access_token=` in it, if there is one, and goes up to
/// the next `&expires_in`, if there is one, whatever else the address holds. `before` is what stands
/// before the token and `behind` what stands behind it.
pub proof fn tokens_are_found_whole(url: Seq<char>) -> (around: (Seq<char>, Seq<char>))
    ensures
        ({
            let (before, behind) = around;
            let token = token_in_url(url);
            &&& url == before + token + behind
            &&& before.len() == 0 || occurs_at(before, "access_token="@, before.len() - 13)
            &&& nowhere(token + behind, "access_token="@)
            &&& nowhere(token, "&expires_in"@)
            &&& behind.len() == 0 || occurs_at(behind, "&expires_in"@, 0)
        }),
{
    reveal_strlit("access_token=");
    reveal_strlit("&expires_in");
    let before = last_piece_starts_at_the_separator(url, "access_token="@);
    let last = pieces(url, "access_token="@).last();
    let behind = first_piece_goes_to_the_separator(last, "&expires_in"@);
    assert(url =~= before + token_in_url(url) + behind);
    (before, behind)
}

/// A login is noted with the token, the mail address and the number, each as it is, and changes nothing
/// else.
pub proof fn logins_are_noted_whole(
    app: AppView,
    access_token: Seq<char>,
    email_id: Seq<char>,
    user_id: Seq<char>,
)
    ensures
        ({
            let after = login_known(app, access_token, email_id, user_id);
            &&& after.login.auth_token == Some(access_token)
            &&& after.login.email_id == Some(email_id)
            &&& after.login.user_id == Some(user_id)
            &&& after == (AppView { login: after.login, ..app })
        }),
{
}

/// A login is refused exactly where somebody is logged in or the mail address or the password is empty.
pub proof fn logins_are_refused_for_a_reason(app: AppView, email_id: Seq<char>, password: Seq<char>)
    ensures
        login_refusal(app, email_id, password) is None <==> {
            &&& app.login.auth_token is None
            &&& email_id.len() > 0
            &&& password.len() > 0
        },
        login_refusal(app, email_id, password) matches Some(reason) ==> login_begun(
            app,
            email_id,
            password,
        ).toasts.last() == (ToastView { kind: ToastKind::Error, message: reason, seconds: None }),
{
}

/// Two passwords are taken exactly where they are the same, not empty, and strong or too long. They are
/// compared whole.
pub proof fn passwords_must_be_the_same(password: Seq<char>, confirm_password: Seq<char>)
    ensures
        password_refusal(password, confirm_password) is None <==> {
            &&& password == confirm_password
            &&& password.len() > 0
            &&& password_status(password) == PasswordStatus::Strong || password_status(password)
                == PasswordStatus::TooLong
        },
        password.len() > 0 && confirm_password.len() > 0 && password != confirm_password
            ==> password_refusal(password, confirm_password) == Some("Passwords do not match"@),
        password.len() > 0 && password == confirm_password && password_refusal(
            password,
            confirm_password,
        ) is Some ==> password_refusal(password, confirm_password) == password_fault(
            password_status(password),
        ),
{
}

/// A new account and a new password are refused exactly for a reason of their own or for their passwords.
pub proof fn accounts_and_resets_are_refused_for_a_reason(
    app: AppView,
    email_id: Seq<char>,
    reset_link: Seq<char>,
    password: Seq<char>,
    confirm_password: Seq<char>,
)
    ensures
        signup_refusal(app, email_id, password, confirm_password) is None <==> {
            &&& app.login.auth_token is None
            &&& email_id.len() > 0
            &&& password_refusal(password, confirm_password) is None
        },
        new_password_refusal(reset_link, password, confirm_password) is None <==> {
            &&& reset_link.len() > 0
            &&& password_refusal(password, confirm_password) is None
        },
        signup_refusal(app, email_id, password, confirm_password) is None && password_status(password)
            == PasswordStatus::Strong ==> signup_begun(
            app,
            email_id,
            password,
            confirm_password,
        ).toasts.len() == app.toasts.len() + 1,
        signup_refusal(app, email_id, password, confirm_password) is None && password_status(password)
            == PasswordStatus::TooLong ==> signup_begun(
            app,
            email_id,
            password,
            confirm_password,
        ).toasts.len() == app.toasts.len() + 2,
        signup_refusal(app, email_id, password, confirm_password) matches Some(reason)
            ==> signup_begun(app, email_id, password, confirm_password) == app.error(reason),
        new_password_refusal(reset_link, password, confirm_password) matches Some(reason)
            ==> reset_begun(app, reset_link, password, confirm_password) == app.error(reason),
{
}

/// The seconds that are left to wait are the whole seconds of the time that is left, and the user is
/// told that number.
pub proof fn the_time_left_is_told(app: AppView, then: u128, now: u128, email_id: Seq<char>)
    requires
        app.reset_link_sent == Some(then),
        then <= now,
        now - then < 60_000_000_000,
    ensures
        reset_link_wait(Some(then), now) matches Some(seconds) && seconds * 1_000_000_000 <= then
            + 60_000_000_000 - now < (seconds + 1) * 1_000_000_000,
        reset_email_refusal(app, email_id, now) == Some(
            "Please wait for "@ + decimal(reset_link_wait(Some(then), now)->0)
                + " seconds before sending another reset password email"@,
        ),
{
}

/// A mail is refused exactly for want of patience or of an address, and a mail that was never sent is
/// never too early.
pub proof fn reset_mails_are_refused_for_a_reason(app: AppView, email_id: Seq<char>, now: u128)
    ensures
        reset_link_wait(None, now) is None,
        reset_email_refusal(app, email_id, now) is None <==> reset_link_wait(app.reset_link_sent, now)
            is None && email_id.len() > 0,
        reset_email_refusal(app, email_id, now) matches Some(reason) ==> reset_email_begun(
            app,
            email_id,
            now,
        ) == app.error(reason),
{
}

/// Only a mail that was sent counts for the next one: it is noted with its time, and any other reply
/// leaves the time as it was.
pub proof fn only_sent_mails_count(app: AppView, status: u16, now: u128)
    ensures
        reset_email_answered(app, OK, now).reset_link_sent == Some(now),
        status != OK ==> reset_email_answered(app, status, now).reset_link_sent
            == app.reset_link_sent,
        ({
            let after = reset_email_answered(app, status, now);
            &&& after == (AppView {
                toasts: after.toasts,
                reset_link_sent: after.reset_link_sent,
                ..app
            })
            &&& after.toasts.len() == app.toasts.len() + 1
        }),
{
}

/// A key is made exactly where an accepted reply says when the mail was sent, and the user is told where
/// it was saved, or that it was not.
pub proof fn keys_are_made_for_confirmed_accounts(
    app: AppView,
    status: u16,
    body: Seq<u8>,
    text: Seq<char>,
    path: Seq<char>,
)
    ensures
        says(body, "confirmation_sent_at"@, text) ==> confirmation_sent(
            OK,
            body_member(Ok(body), "confirmation_sent_at"@),
        ),
        confirmation_sent(status, body_member(Ok(body), "confirmation_sent_at"@)) ==> status == OK
            && exists|t: Seq<char>| #[trigger] says(body, "confirmation_sent_at"@, t),
        signup_answered(app, status, body_member(Ok(body), "confirmation_sent_at"@)).only_told(app),
        key_saved(app, Some(path)).toasts.len() == app.toasts.len() + 2,
        key_saved(app, Some(path)).toasts[app.toasts.len() as int].message
            == "👍 Encryption key saved at "@ + path,
        key_saved(app, Some(path)).toasts[app.toasts.len() as int].kind == ToastKind::Info,
        key_saved(app, Some(path)).toasts.last().kind == ToastKind::Warning,
        key_saved(app, Some(path)).only_told(app),
        key_saved(app, None).only_told(app),
        key_saved(app, None).toasts.last().kind == ToastKind::Error,
{
    if confirmation_sent(status, body_member(Ok(body), "confirmation_sent_at"@)) {
        if let Ok(Some((Some(t), _))) = json_member(body, "confirmation_sent_at"@) {
            assert(says(body, "confirmation_sent_at"@, t));
        }
    }
}

} // verus!
