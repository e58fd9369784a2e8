//! The saves in the cloud: storing, listing, previewing, loading and deleting them.

use crate::app::{
    boards_option, cloud_option, cloud_view, refreshed, App, AppView, CloudData, CloudDataView,
    IoEvent,
};
use crate::board::{boards_view, shown, visible_boards_and_cards, Board, BoardView};
use crate::cipher::{
    decrypt_save, encrypt_save, get_user_encryption_key, opened_save, save_fits, sealed_save,
    sealed_view, try_decrypt_save, user_key, KeyError, KEY_LENGTH, MAX_PLAINTEXT_LENGTH,
    NONCE_LENGTH,
};
use crate::http::{
    body_counts, body_says, cloud_data_request, delete_save_request, request_option, save_ids_query,
    save_ids_request, save_record, service_request, store_save_request, HttpRequest, Method, RequestView, Service,
    CREATED, NO_CONTENT, OK,
};
use crate::json::{says, says_number};
use crate::replies::numbers_result;
use crate::text::{decimal, push_decimal, text_option};
use crate::timestamp::{created_time_is_plain, date_format_fits, shown_time, try_preview_date};
use vstd::pervasive::unreached;
use vstd::prelude::*;
use vstd::string::*;
use vstd::utf8::*;

verus! {

/// What the user is told where a save cannot be stored for want of a key.
pub const NO_KEY_TO_SYNC: &'static str =
    "Error syncing local data, Could not get encryption key, If you have lost it please generate a new one using the -g flag";

/// What the user is told where a save cannot be previewed for want of a key.
pub const NO_KEY_TO_PREVIEW: &'static str =
    "Error loading save file, Could not get user Encryption key .If lost please generate a new one by using the -g flag";

/// What the user is told where a save cannot be loaded for want of a key.
pub const NO_KEY_TO_LOAD: &'static str =
    "Error loading save file, Could not get user Encryption key. If lost please generate a new one by using the -g flag";

/// What the user is told where a save cannot be opened with the key.
pub const NOT_DECRYPTED: &'static str = "Error loading save file, Could not decrypt save file";

/// The greatest number of a list, and zero where there is none.
pub open spec fn greatest(ids: Seq<usize>) -> int
    decreases ids.len(),
{
    if ids.len() == 0 {
        0
    } else {
        let before = greatest(ids.drop_last());
        if before < ids.last() {
            ids.last() as int
        } else {
            before
        }
    }
}

/// The number of the next save: one more than the greatest so far.
pub open spec fn next_id(ids: Seq<usize>) -> int {
    if ids.len() == 0 {
        0
    } else {
        greatest(ids) + 1
    }
}

/// The greatest number is in the list, and none is greater.
proof fn lemma_greatest(ids: Seq<usize>)
    ensures
        forall|i: int| 0 <= i < ids.len() ==> #[trigger] ids[i] <= greatest(ids),
        ids.len() > 0 ==> exists|i: int| 0 <= i < ids.len() && #[trigger] ids[i] == greatest(ids),
        greatest(ids) >= 0,
    decreases ids.len(),
{
    if ids.len() > 0 {
        let before = ids.drop_last();
        lemma_greatest(before);
        let last = ids.len() - 1;
        assert forall|i: int| 0 <= i < ids.len() implies #[trigger] ids[i] <= greatest(ids) by {
            if i < last {
                assert(ids[i] == before[i]);
            }
        }
        if greatest(before) < ids.last() {
            assert(ids[last] == greatest(ids));
        } else if before.len() > 0 {
            let k = choose|k: int| 0 <= k < before.len() && #[trigger] before[k] == greatest(before);
            assert(ids[k] == greatest(ids));
        } else {
            assert(ids[last] == greatest(ids));
        }
    }
}

/// The number of the next save is greater than that of every save so far, and it is the least such
/// number: it is zero, or some save has the number before it.
pub proof fn next_id_is_new(ids: Seq<usize>)
    ensures
        forall|i: int| 0 <= i < ids.len() ==> #[trigger] ids[i] < next_id(ids),
        next_id(ids) == 0 || exists|i: int|
            0 <= i < ids.len() && #[trigger] ids[i] == next_id(ids) - 1,
        next_id(ids) >= 0,
{
    lemma_greatest(ids);
}

/// The number of the next save.
pub fn next_save_id(save_ids: &Vec<usize>) -> (id: usize)
    requires
        forall|i: int| 0 <= i < save_ids@.len() ==> #[trigger] save_ids@[i] < usize::MAX,
    ensures
        id == next_id(save_ids@),
        forall|i: int| 0 <= i < save_ids@.len() ==> #[trigger] save_ids@[i] < id,
{
    proof {
        next_id_is_new(save_ids@);
    }
    if save_ids.len() == 0 {
        return 0;
    }
    let mut max: usize = 0;
    let mut i: usize = 0;
    while i < save_ids.len()
        invariant
            i <= save_ids@.len(),
            max == greatest(save_ids@.take(i as int)),
            max < usize::MAX,
            forall|k: int| 0 <= k < save_ids@.len() ==> #[trigger] save_ids@[k] < usize::MAX,
        decreases save_ids@.len() - i,
    {
        assert(save_ids@.take(i + 1).drop_last() =~= save_ids@.take(i as int));
        if max < save_ids[i] {
            max = save_ids[i];
        }
        i = i + 1;
    }
    assert(save_ids@.take(i as int) =~= save_ids@);
    max + 1
}

/// What encrypting the boards gives. Without `json` they could not be written as JSON.
pub open spec fn sealed_boards(json: Option<Seq<char>>, key: Seq<u8>, nonce: Seq<u8>) -> Result<
    (Seq<char>, Seq<char>),
    Seq<char>,
> {
    match json {
        None => Err("Error serializing boards"@),
        Some(text) => sealed_save(text, key, nonce),
    }
}

/// The state after the boards were encrypted, and the request that stores them.
pub open spec fn upload(
    app: AppView,
    service: Service,
    save_id: usize,
    sealed: Result<(Seq<char>, Seq<char>), Seq<char>>,
) -> (AppView, Option<RequestView>) {
    match sealed {
        Err(_) => (app.error("Error syncing local data"@), None),
        Ok((board_data, nonce)) => (
            app,
            Some(
                service_request(
                    service,
                    Method::Post,
                    "/rest/v1/user_data"@,
                    app.login.auth_token,
                    Some(save_record(app.login.user_id->0, board_data, save_id, nonce)),
                ),
            ),
        ),
    }
}

/// The state after the boards were encrypted with a nonce, and the request that stores them, where
/// the key of the user was looked for first.
pub open spec fn sync_step(
    app: AppView,
    service: Service,
    save_ids: Seq<usize>,
    key_file: Option<Seq<char>>,
    json: Option<Seq<char>>,
    nonce: Seq<u8>,
) -> (AppView, Option<RequestView>) {
    match user_key(app.key_argument, key_file) {
        Err(_) => (app.error(NO_KEY_TO_SYNC@), None),
        Ok(key) => upload(
            app,
            service,
            next_id(save_ids) as usize,
            sealed_boards(json, key, nonce),
        ),
    }
}

/// Somebody is logged in, and the number of the user is known.
pub open spec fn has_account(app: AppView) -> bool {
    app.login.auth_token is Some && app.login.user_id is Some
}

/// What is read back from the body of a request that stores the boards is opened again with the key.
pub open spec fn stores_readably(
    app: AppView,
    save_id: usize,
    key: Seq<u8>,
    json: Seq<char>,
    request: RequestView,
) -> bool {
    exists|board_data: Seq<char>, nonce: Seq<char>|
        {
            &&& request.body == Some(
                #[trigger] save_record(app.login.user_id->0, board_data, save_id, nonce),
            )
            &&& body_says(request, "user_id"@, app.login.user_id->0)
            &&& body_says(request, "board_data"@, board_data)
            &&& body_says(request, "nonce"@, nonce)
            &&& body_counts(request, "save_id"@, save_id)
            &&& opened_save(board_data, key, nonce) == Ok::<_, Seq<char>>(json)
        }
}

/// The cloud saves that are known.
pub open spec fn known_saves(app: AppView) -> Seq<CloudDataView> {
    match app.cloud_data {
        Some(saves) => saves,
        None => seq![],
    }
}

/// The line of the cloud save that is to be previewed.
pub open spec fn previewed_line(app: AppView) -> Option<usize> {
    match app.selected {
        Some(line) if line < known_saves(app).len() => Some(line),
        _ => None,
    }
}

/// The state after a cloud save was looked for to be loaded.
pub open spec fn load_begun(app: AppView) -> AppView {
    let told = if app.cloud_data is None {
        app.error("Could not get local save files"@)
    } else {
        app
    };
    if app.line() < known_saves(app).len() {
        told
    } else {
        told.error("Cannot load save file: No such file"@)
    }
}

/// The state after a cloud save was opened with the key of the user, with what the user is told where
/// there is no key, and the boards in it as JSON.
pub open spec fn save_opened(
    app: AppView,
    save: CloudDataView,
    key_file: Option<Seq<char>>,
    no_key: Seq<char>,
) -> (AppView, Option<Seq<char>>) {
    match user_key(app.key_argument, key_file) {
        Err(_) => (app.error(no_key), None),
        Ok(key) => match opened_save(save.board_data, key, save.nonce) {
            Err(_) => (app.error(NOT_DECRYPTED@), None),
            Ok(json) => (app, Some(json)),
        },
    }
}

/// The key of the user, if there is one, can be tried on a cloud save.
pub open spec fn key_can_be_tried(
    app: AppView,
    save: CloudDataView,
    key_file: Option<Seq<char>>,
) -> bool {
    user_key(app.key_argument, key_file) matches Ok(key) ==> save_fits(
        save.board_data,
        key,
        save.nonce,
    )
}

/// The state after the cloud save that is to be previewed was opened, and its line and its boards as
/// JSON.
pub open spec fn preview_opened(app: AppView, key_file: Option<Seq<char>>) -> (
    AppView,
    Option<(usize, Seq<char>)>,
) {
    match previewed_line(app) {
        None => (
            if app.selected is None {
                app.error("No save selected to preview"@)
            } else {
                app
            },
            None,
        ),
        Some(line) => match save_opened(
            app,
            known_saves(app)[line as int],
            key_file,
            NO_KEY_TO_PREVIEW@,
        ) {
            (next, Some(json)) => (next, Some((line, json))),
            (next, None) => (next, None),
        },
    }
}

/// The state after the cloud save that is to be loaded was opened, and its line and its boards as
/// JSON.
pub open spec fn load_opened(app: AppView, key_file: Option<Seq<char>>) -> (
    AppView,
    Option<(usize, Seq<char>)>,
) {
    if app.line() >= known_saves(app).len() {
        (load_begun(app), None)
    } else {
        match save_opened(app, known_saves(app)[app.line() as int], key_file, NO_KEY_TO_LOAD@) {
            (next, Some(json)) => (next, Some((app.line(), json))),
            (next, None) => (next, None),
        }
    }
}

/// The line and the boards as JSON of a cloud save that was opened.
pub open spec fn opened_view(opened: Option<(usize, String)>) -> Option<(usize, Seq<char>)> {
    match opened {
        Some((line, json)) => Some((line, json@)),
        None => None,
    }
}

/// The state after a preview of a cloud save was read.
pub open spec fn cloud_preview_shown(
    app: AppView,
    save: CloudDataView,
    boards: Option<Seq<BoardView>>,
    date: Option<Seq<char>>,
) -> AppView {
    match boards {
        None => app.error(NOT_DECRYPTED@),
        Some(list) => AppView {
            preview_boards: Some(list),
            preview_visible: shown(
                list,
                app.config.no_of_boards_to_show,
                app.config.no_of_cards_to_show,
            ),
            preview_file_name: match date {
                None => app.preview_file_name,
                Some(d) => Some("Cloud_save_"@ + decimal(save.save_id as nat) + " - "@ + d),
            },
            ..app
        },
    }
}

/// The state after the boards of a cloud save were read.
pub open spec fn cloud_save_loaded(
    app: AppView,
    save: CloudDataView,
    boards: Option<Seq<BoardView>>,
) -> AppView {
    match boards {
        None => app.error(NOT_DECRYPTED@),
        Some(list) => AppView {
            ui_mode: app.config.default_view,
            ..(AppView { boards: list, ..app }).info(
                "👍 Save file cloud_save_"@ + decimal(save.save_id as nat) + " loaded"@,
            ).dispatch(IoEvent::ResetVisibleBoardsandCards)
        },
    }
}

/// The state after the deletion of a cloud save was begun.
pub open spec fn delete_begun(app: AppView) -> AppView {
    if !app.logged_in() {
        app.error("Not logged in"@)
    } else {
        let told = app.info("Deleting cloud save, please wait..."@);
        if app.cloud_data is None {
            told.error("Could not get local save files"@)
        } else if app.line() >= known_saves(app).len() {
            told.error("Cannot delete save file: No such file"@)
        } else {
            told
        }
    }
}

/// The cloud save that is to be deleted.
pub open spec fn deleted_save(app: AppView) -> Option<CloudDataView> {
    if app.logged_in() && app.line() < known_saves(app).len() {
        Some(known_saves(app)[app.line() as int])
    } else {
        None
    }
}

impl App {
    /// Looks for the key of the user, and tells the user where there is none.
    fn look_for_key(&mut self, key_file: Option<String>, message: &str) -> (key: Option<Vec<u8>>)
        ensures
            match user_key(old(self)@.key_argument, text_option(key_file)) {
                Ok(k) => key is Some && key->0@ == k && final(self)@ == old(self)@,
                Err(_) => key is None && final(self)@ == old(self)@.error(message@),
            },
    {
        let argument = match &self.encryption_key_from_arguments {
            Some(text) => Some(text.clone()),
            None => None,
        };
        match get_user_encryption_key(argument, key_file) {
            Ok(key) => Some(key),
            Err(_) => {
                self.send_error_toast(message, None);
                None
            },
        }
    }

    /// Begins to store the boards in the cloud. The numbers of the saves are to be asked for where
    /// this says so.
    pub fn begin_sync(&mut self) -> (go_on: bool)
        ensures
            go_on == old(self)@.logged_in(),
            final(self)@ == if old(self)@.logged_in() {
                old(self)@.info("Syncing local data, please wait..."@)
            } else {
                old(self)@.error("Not logged in"@)
            },
    {
        if self.user_login_data.auth_token.is_none() {
            self.send_error_toast("Not logged in", None);
            false
        } else {
            self.send_info_toast("Syncing local data, please wait...", None);
            true
        }
    }

    /// Begins to ask for the numbers of the saves of the account, and gives the request for it.
    pub fn begin_save_ids(&mut self, service: &Service) -> (request: Option<HttpRequest>)
        requires
            old(self)@.logged_in() ==> old(self)@.login.user_id is Some,
        ensures
            final(self)@ == if old(self)@.logged_in() {
                old(self)@
            } else {
                old(self)@.error("Not logged in"@)
            },
            request_option(request) == if old(self)@.logged_in() {
                Some(
                    save_ids_query(
                        *service,
                        old(self)@.login.auth_token->0,
                        old(self)@.login.user_id->0,
                    ),
                )
            } else {
                None
            },
    {
        let request = match (&self.user_login_data.auth_token, &self.user_login_data.user_id) {
            (Some(token), Some(user_id)) => Some(
                save_ids_request(service, token.as_str(), user_id.as_str()),
            ),
            _ => None,
        };
        if request.is_none() {
            self.send_error_toast("Not logged in", None);
        }
        request
    }

    /// Ends to ask for the numbers of the saves. Where they could not be had, the user is told
    /// why, and there are none.
    pub fn finish_save_ids(&mut self, outcome: Result<Vec<usize>, String>) -> (save_ids: Vec<usize>)
        ensures
            match numbers_result(outcome) {
                Ok(ids) => save_ids@ == ids && final(self)@ == old(self)@,
                Err(message) => save_ids@ == Seq::<usize>::empty() && final(self)@ == old(
                    self,
                )@.error(message),
            },
    {
        match outcome {
            Ok(save_ids) => save_ids,
            Err(message) => {
                self.send_error_toast(message.as_str(), None);
                Vec::new()
            },
        }
    }

    /// Goes on to store the boards once they are encrypted, and gives the request for it.
    pub fn upload_save(
        &mut self,
        service: &Service,
        save_id: usize,
        sealed: Result<(String, String), String>,
    ) -> (request: Option<HttpRequest>)
        requires
            sealed is Ok ==> has_account(old(self)@),
        ensures
            (final(self)@, request_option(request)) == upload(
                old(self)@,
                *service,
                save_id,
                sealed_view(sealed),
            ),
            sealed matches Ok((board_data, nonce)) ==> {
                &&& request matches Some(r)
                &&& body_says(r@, "user_id"@, old(self)@.login.user_id->0)
                &&& body_says(r@, "board_data"@, board_data@)
                &&& body_says(r@, "nonce"@, nonce@)
                &&& body_counts(r@, "save_id"@, save_id)
            },
    {
        match sealed {
            Err(_) => {
                self.send_error_toast("Error syncing local data", None);
                None
            },
            Ok((board_data, nonce)) => match (
                &self.user_login_data.auth_token,
                &self.user_login_data.user_id,
            ) {
                (Some(token), Some(user_id)) => Some(
                    store_save_request(
                        service,
                        token.as_str(),
                        user_id.as_str(),
                        board_data.as_str(),
                        save_id,
                        nonce.as_str(),
                    ),
                ),
                _ => unreached(),
            },
        }
    }

    /// Goes on to store the boards once the numbers of the saves are known: looks for the key,
    /// encrypts the boards with a fresh nonce and gives the request that stores them. `key_file` is
    /// what the key file holds, if it could be read, and `boards_json` the boards as JSON, if they
    /// could be written so. Whatever the nonce is, the key opens what is stored.
    pub fn sync_boards(
        &mut self,
        service: &Service,
        save_ids: &Vec<usize>,
        key_file: Option<String>,
        boards_json: Option<String>,
    ) -> (request: Option<HttpRequest>)
        requires
            forall|i: int| 0 <= i < save_ids@.len() ==> #[trigger] save_ids@[i] < usize::MAX,
            boards_json matches Some(json) ==> (user_key(
                old(self)@.key_argument,
                text_option(key_file),
            ) matches Ok(key) ==> {
                &&& key.len() == KEY_LENGTH
                &&& encode_utf8(json@).len() <= MAX_PLAINTEXT_LENGTH ==> has_account(old(self)@)
            }),
        ensures
            exists|nonce: Seq<u8>|
                nonce.len() == NONCE_LENGTH && (final(self)@, request_option(request))
                    == #[trigger] sync_step(
                    old(self)@,
                    *service,
                    save_ids@,
                    text_option(key_file),
                    text_option(boards_json),
                    nonce,
                ),
            request is Some <==> {
                &&& user_key(old(self)@.key_argument, text_option(key_file)) is Ok
                &&& boards_json matches Some(json) && encode_utf8(json@).len()
                    <= MAX_PLAINTEXT_LENGTH
            },
            request matches Some(r) ==> stores_readably(
                old(self)@,
                next_id(save_ids@) as usize,
                user_key(old(self)@.key_argument, text_option(key_file))->Ok_0,
                boards_json->0@,
                r@,
            ),
    {
        let save_id = next_save_id(save_ids);
        let ghost any_nonce: Seq<u8> = Seq::new(NONCE_LENGTH as nat, |i: int| 0u8);
        match self.look_for_key(key_file, NO_KEY_TO_SYNC) {
            None => {
                assert((self@, None::<RequestView>) == sync_step(
                    old(self)@,
                    *service,
                    save_ids@,
                    text_option(key_file),
                    text_option(boards_json),
                    any_nonce,
                ));
                None
            },
            Some(key) => {
                let ghost json_text = text_option(boards_json);
                let sealed = encrypt_save(boards_json, key.as_slice());
                let ghost nonce = match json_text {
                    None => any_nonce,
                    Some(json) => choose|nonce: Seq<u8>|
                        nonce.len() == NONCE_LENGTH && sealed_view(sealed) == #[trigger] sealed_save(
                            json,
                            key@,
                            nonce,
                        ),
                };
                assert(sealed_view(sealed) == sealed_boards(json_text, key@, nonce));
                let ghost sealed_texts = sealed_view(sealed);
                let request = self.upload_save(service, save_id, sealed);
                assert((self@, request_option(request)) == sync_step(
                    old(self)@,
                    *service,
                    save_ids@,
                    text_option(key_file),
                    json_text,
                    nonce,
                ));
                proof {
                    if let Ok((board_data, sealed_nonce)) = sealed_texts {
                        let record = save_record(
                            old(self)@.login.user_id->0,
                            board_data,
                            save_id,
                            sealed_nonce,
                        );
                        assert(request_option(request)->0.body == Some(record));
                    }
                }
                request
            },
        }
    }

    /// Ends to store the boards, given the status of the reply. The list of the cloud saves is asked
    /// for anew where there was one.
    pub fn finish_sync(&mut self, status: u16)
        ensures
            final(self)@ == if status != CREATED {
                old(self)@.error("Error syncing local data"@)
            } else if old(self)@.cloud_data is Some {
                old(self)@.info("👍 Local data synced to the cloud"@).dispatch(
                    IoEvent::GetCloudData,
                )
            } else {
                old(self)@.info("👍 Local data synced to the cloud"@)
            },
    {
        if status == CREATED {
            self.send_info_toast("👍 Local data synced to the cloud", None);
            if self.cloud_data.is_some() {
                self.dispatch(IoEvent::GetCloudData);
            }
        } else {
            self.send_error_toast("Error syncing local data", None);
        }
    }

    /// Begins to list the cloud saves, and gives the request for it. Until the reply comes, none
    /// are known.
    pub fn begin_cloud_data(&mut self, service: &Service) -> (request: Option<HttpRequest>)
        ensures
            final(self)@ == if old(self)@.logged_in() {
                AppView {
                    cloud_data: None,
                    ..old(self)@.info("Refreshing cloud data, please wait..."@)
                }
            } else {
                old(self)@.error("Not logged in"@)
            },
            request_option(request) == if old(self)@.logged_in() {
                Some(
                    service_request(
                        *service,
                        Method::Get,
                        "/rest/v1/user_data"@,
                        old(self)@.login.auth_token,
                        None,
                    ),
                )
            } else {
                None
            },
    {
        let request = match &self.user_login_data.auth_token {
            None => None,
            Some(token) => Some(cloud_data_request(service, token.as_str())),
        };
        if request.is_none() {
            self.send_error_toast("Not logged in", None);
        } else {
            self.send_info_toast("Refreshing cloud data, please wait...", None);
            self.cloud_data = None;
        }
        request
    }

    /// Ends to list the cloud saves, given the status of the reply and the saves in it, if they
    /// could be read.
    pub fn finish_cloud_data(&mut self, status: u16, saves: Option<Vec<CloudData>>)
        ensures
            final(self)@ == if status == OK && saves is Some {
                (AppView { cloud_data: cloud_option(saves), ..old(self)@ }).info(
                    "👍 Cloud data loaded"@,
                )
            } else {
                old(self)@.error("Error Refreshing cloud data"@)
            },
    {
        if status == OK && saves.is_some() {
            self.cloud_data = saves;
            self.send_info_toast("👍 Cloud data loaded", None);
        } else {
            self.send_error_toast("Error Refreshing cloud data", None);
        }
    }

    /// Finds the cloud save that is to be previewed. The user is told where no line is selected, and
    /// nothing where the line is not one of a save.
    fn find_preview(&mut self) -> (found: Option<(usize, CloudData)>)
        ensures
            match previewed_line(old(self)@) {
                None => found is None,
                Some(line) => {
                    &&& found matches Some((l, save))
                    &&& l == line
                    &&& save@ == known_saves(old(self)@)[line as int]
                },
            },
            final(self)@ == if old(self)@.selected is None {
                old(self)@.error("No save selected to preview"@)
            } else {
                old(self)@
            },
    {
        match self.load_save_state {
            None => {
                self.send_error_toast("No save selected to preview", None);
                None
            },
            Some(line) => match &self.cloud_data {
                None => None,
                Some(saves) => if line < saves.len() {
                    assert(cloud_view(saves@)[line as int] == saves@[line as int]@);
                    Some((line, saves[line].clone()))
                } else {
                    None
                },
            },
        }
    }

    /// Finds the cloud save that is to be loaded, and tells the user where there is none.
    fn find_load(&mut self) -> (found: Option<(usize, CloudData)>)
        ensures
            match found {
                Some((line, save)) => {
                    &&& line == old(self)@.line()
                    &&& line < known_saves(old(self)@).len()
                    &&& save@ == known_saves(old(self)@)[line as int]
                },
                None => old(self)@.line() >= known_saves(old(self)@).len(),
            },
            final(self)@ == load_begun(old(self)@),
    {
        let line: usize = self.line_or_first();
        let found = match &self.cloud_data {
            None => None,
            Some(saves) => if line < saves.len() {
                assert(cloud_view(saves@)[line as int] == saves@[line as int]@);
                Some((line, saves[line].clone()))
            } else {
                None
            },
        };
        if self.cloud_data.is_none() {
            self.send_error_toast("Could not get local save files", None);
        }
        if found.is_none() {
            self.send_error_toast("Cannot load save file: No such file", None);
        }
        found
    }

    /// Opens a cloud save with the key of the user, and gives the boards as JSON.
    fn open_save(&mut self, save: &CloudData, key_file: Option<String>, no_key: &str) -> (json: Option<
        String,
    >)
        requires
            key_can_be_tried(old(self)@, save@, text_option(key_file)),
        ensures
            (final(self)@, text_option(json)) == save_opened(
                old(self)@,
                save@,
                text_option(key_file),
                no_key@,
            ),
    {
        let key = match self.look_for_key(key_file, no_key) {
            None => return None,
            Some(key) => key,
        };
        match decrypt_save(save.board_data.as_str(), key.as_slice(), save.nonce.as_str()) {
            Ok(json) => Some(json),
            Err(_) => {
                self.send_error_toast(NOT_DECRYPTED, None);
                None
            },
        }
    }

    /// Tells whether the key of the user, if there is one, can be tried on the cloud save in a line:
    /// whether the parts have the lengths that the cipher takes. `key_file` is what the key file holds,
    /// if it could be read.
    pub fn can_try_key(&self, line: usize, key_file: Option<String>) -> (fits: bool)
        ensures
            fits == (line < known_saves(self@).len() ==> key_can_be_tried(
                self@,
                known_saves(self@)[line as int],
                text_option(key_file),
            )),
    {
        let argument = match &self.encryption_key_from_arguments {
            Some(text) => Some(text.clone()),
            None => None,
        };
        match &self.cloud_data {
            None => true,
            Some(saves) => {
                if line >= saves.len() {
                    return true;
                }
                let save = &saves[line];
                assert(cloud_view(saves@)[line as int] == save@);
                match get_user_encryption_key(argument, key_file) {
                    Err(_) => true,
                    Ok(key) => try_decrypt_save(
                        save.board_data.as_str(),
                        key.as_slice(),
                        save.nonce.as_str(),
                    ).is_some(),
                }
            },
        }
    }

    /// Opens the cloud save that is to be previewed, and gives its line and its boards as JSON.
    /// `key_file` is what the key file holds, if it could be read.
    pub fn preview_cloud_save(&mut self, key_file: Option<String>) -> (opened: Option<
        (usize, String),
    >)
        requires
            previewed_line(old(self)@) matches Some(line) ==> key_can_be_tried(
                old(self)@,
                known_saves(old(self)@)[line as int],
                text_option(key_file),
            ),
        ensures
            opened matches Some((line, json)) ==> {
                &&& old(self).load_save_state == Some(line)
                &&& old(self).cloud_data matches Some(saves)
                &&& line < saves@.len()
                &&& user_key(old(self)@.key_argument, text_option(key_file)) matches Ok(key)
                &&& opened_save(
                    saves@[line as int].board_data@,
                    key,
                    saves@[line as int].nonce@,
                ) == Ok::<_, Seq<char>>(json@)
            },
            (final(self)@, opened_view(opened)) == preview_opened(old(self)@, text_option(key_file)),
    {
        match self.find_preview() {
            None => None,
            Some((line, save)) => match self.open_save(&save, key_file, NO_KEY_TO_PREVIEW) {
                None => None,
                Some(json) => Some((line, json)),
            },
        }
    }

    /// Ends to preview a cloud save. `boards` are its boards, if they could be read from the JSON, and
    /// `date` the time at which it was made, if the save says it.
    pub fn finish_cloud_preview(
        &mut self,
        save: &CloudData,
        boards: Option<Vec<Board>>,
        date: Option<String>,
    )
        ensures
            boards matches Some(list) ==> (final(self).preview_boards_and_cards matches Some(shown)
                && boards_view(shown@) == boards_view(list@)),
            final(self)@ == cloud_preview_shown(
                old(self)@,
                save@,
                boards_option(boards),
                text_option(date),
            ),
    {
        match boards {
            None => {
                self.send_error_toast(NOT_DECRYPTED, None);
            },
            Some(list) => {
                self.preview_visible_boards_and_cards = visible_boards_and_cards(
                    &list,
                    self.config.no_of_boards_to_show,
                    self.config.no_of_cards_to_show,
                );
                self.preview_boards_and_cards = Some(list);
                if let Some(date) = date {
                    let mut name = "Cloud_save_".to_owned();
                    push_decimal(&mut name, save.save_id as u64);
                    name.append(" - ");
                    name.append(date.as_str());
                    self.preview_file_name = Some(name);
                }
            },
        }
    }

    /// Shows the preview of the cloud save in a line, with the time at which it was made. Nothing happens,
    /// and this says so, where that time cannot be shown in the notation that the user set.
    pub fn show_cloud_preview(&mut self, line: usize, boards: Option<Vec<Board>>) -> (fits: bool)
        requires
            line < known_saves(old(self)@).len(),
        ensures
            fits ==> (boards matches Some(list) ==> (final(self).preview_boards_and_cards matches Some(
                shown,
            ) && boards_view(shown@) == boards_view(list@))),
            fits == (boards is Some ==> date_format_fits(
                known_saves(old(self)@)[line as int].created_at,
                old(self)@.config.date_format@,
            )),
            fits ==> final(self)@ == cloud_preview_shown(
                old(self)@,
                known_saves(old(self)@)[line as int],
                boards_option(boards),
                shown_time(
                    known_saves(old(self)@)[line as int].created_at,
                    old(self)@.config.date_format@,
                ),
            ),
            !fits ==> final(self)@ == old(self)@,
            boards is Some ==> created_time_is_plain(
                known_saves(old(self)@)[line as int].created_at,
            ),
    {
        let save = match &self.cloud_data {
            Some(saves) => {
                assert(cloud_view(saves@)[line as int] == saves@[line as int]@);
                saves[line].clone()
            },
            None => unreached(),
        };
        if boards.is_none() {
            self.finish_cloud_preview(&save, boards, None);
            return true;
        }
        match try_preview_date(save.created_at.as_str(), self.config.date_format.as_str()) {
            None => false,
            Some(date) => {
                self.finish_cloud_preview(&save, boards, date);
                true
            },
        }
    }

    /// Opens the cloud save that is to be loaded, and gives its line and its boards as JSON. `key_file`
    /// is what the key file holds, if it could be read.
    pub fn load_save_file_cloud(&mut self, key_file: Option<String>) -> (opened: Option<
        (usize, String),
    >)
        requires
            old(self)@.line() < known_saves(old(self)@).len() ==> key_can_be_tried(
                old(self)@,
                known_saves(old(self)@)[old(self)@.line() as int],
                text_option(key_file),
            ),
        ensures
            opened matches Some((line, json)) ==> {
                &&& old(self).load_save_state matches Some(chosen) ==> line == chosen
                &&& old(self).load_save_state is None ==> line == 0
                &&& old(self).cloud_data matches Some(saves)
                &&& line < saves@.len()
                &&& user_key(old(self)@.key_argument, text_option(key_file)) matches Ok(key)
                &&& opened_save(
                    saves@[line as int].board_data@,
                    key,
                    saves@[line as int].nonce@,
                ) == Ok::<_, Seq<char>>(json@)
            },
            (final(self)@, opened_view(opened)) == load_opened(old(self)@, text_option(key_file)),
    {
        match self.find_load() {
            None => None,
            Some((line, save)) => match self.open_save(&save, key_file, NO_KEY_TO_LOAD) {
                None => None,
                Some(json) => Some((line, json)),
            },
        }
    }

    /// Ends to load the cloud save in a line. `boards` are its boards, if they could be read from the
    /// JSON.
    pub fn finish_cloud_load(&mut self, line: usize, boards: Option<Vec<Board>>)
        requires
            line < known_saves(old(self)@).len(),
        ensures
            boards matches Some(list) ==> boards_view(final(self).boards@) == boards_view(list@),
            boards is None ==> boards_view(final(self).boards@) == boards_view(old(self).boards@),
            final(self)@ == cloud_save_loaded(
                old(self)@,
                known_saves(old(self)@)[line as int],
                boards_option(boards),
            ),
    {
        match boards {
            None => {
                self.send_error_toast(NOT_DECRYPTED, None);
            },
            Some(list) => {
                let save_id: usize = match &self.cloud_data {
                    Some(saves) => {
                        assert(cloud_view(saves@)[line as int] == saves@[line as int]@);
                        saves[line].save_id
                    },
                    None => unreached(),
                };
                self.set_boards(list);
                let mut message = "👍 Save file cloud_save_".to_owned();
                push_decimal(&mut message, save_id as u64);
                message.append(" loaded");
                self.send_info_toast(message.as_str(), None);
                self.dispatch(IoEvent::ResetVisibleBoardsandCards);
                self.ui_mode = self.config.default_view;
            },
        }
    }

    /// Begins to delete a cloud save, and gives the request for it and the number of the save.
    pub fn begin_cloud_delete(&mut self, service: &Service) -> (request: Option<
        (HttpRequest, usize),
    >)
        ensures
            final(self)@ == delete_begun(old(self)@),
            request matches Some((r, number)) ==> {
                let line = match old(self).load_save_state {
                    Some(chosen) => chosen,
                    None => 0,
                };
                &&& old(self).user_login_data.auth_token is Some
                &&& old(self).cloud_data matches Some(saves)
                &&& line < saves@.len()
                &&& number == saves@[line as int].save_id
                &&& r.method == Method::Delete
                &&& r.url@ == service.url@ + ("/rest/v1/user_data?id=eq."@ + decimal(
                    saves@[line as int].id as nat,
                ))
            },
            request is None <==> {
                let line = match old(self).load_save_state {
                    Some(chosen) => chosen,
                    None => 0,
                };
                ||| old(self).user_login_data.auth_token is None
                ||| old(self).cloud_data is None
                ||| line >= old(self).cloud_data->0@.len()
            },
            match deleted_save(old(self)@) {
                None => request is None,
                Some(save) => {
                    &&& request matches Some((r, number))
                    &&& number == save.save_id
                    &&& r@ == service_request(
                        *service,
                        Method::Delete,
                        "/rest/v1/user_data?id=eq."@ + decimal(save.id as nat),
                        old(self)@.login.auth_token,
                        None,
                    )
                },
            },
    {
        let line: usize = self.line_or_first();
        let token = match &self.user_login_data.auth_token {
            None => {
                self.send_error_toast("Not logged in", None);
                return None;
            },
            Some(token) => token.clone(),
        };
        self.send_info_toast("Deleting cloud save, please wait...", None);
        let request = match &self.cloud_data {
            None => {
                self.send_error_toast("Could not get local save files", None);
                return None;
            },
            Some(saves) => if line < saves.len() {
                assert(cloud_view(saves@)[line as int] == saves@[line as int]@);
                Some(
                    (
                        delete_save_request(service, token.as_str(), saves[line].id),
                        saves[line].save_id,
                    ),
                )
            } else {
                None
            },
        };
        if request.is_none() {
            self.send_error_toast("Cannot delete save file: No such file", None);
        }
        request
    }

    /// Ends to delete a cloud save, given the status of the reply and the number of the save.
    pub fn finish_cloud_delete(&mut self, status: u16, save_number: usize)
        ensures
            final(self)@ == if status == NO_CONTENT {
                old(self)@.info(
                    "👍 Cloud save "@ + decimal(save_number as nat) + " deleted"@,
                )
            } else {
                old(self)@.error("Error deleting cloud save"@)
            },
    {
        if status == NO_CONTENT {
            let mut message = "👍 Cloud save ".to_owned();
            push_decimal(&mut message, save_number as u64);
            message.append(" deleted");
            self.send_info_toast(message.as_str(), None);
        } else {
            self.send_error_toast("Error deleting cloud save", None);
        }
    }
}

/// A cloud save that the key of the user opens gives its boards to whoever previews or loads it, and
/// opening it changes nothing.
pub proof fn readable_save_is_opened(
    app: AppView,
    key_file: Option<Seq<char>>,
    key: Seq<u8>,
    json: Seq<char>,
)
    requires
        user_key(app.key_argument, key_file) == Ok::<_, KeyError>(key),
        app.line() < known_saves(app).len(),
        opened_save(
            known_saves(app)[app.line() as int].board_data,
            key,
            known_saves(app)[app.line() as int].nonce,
        ) == Ok::<_, Seq<char>>(json),
    ensures
        load_opened(app, key_file) == (app, Some((app.line(), json))),
        app.selected is Some ==> preview_opened(app, key_file) == (app, Some((app.line(), json))),
{
}

/// What is previewed is not what is worked on: a preview leaves the boards as they are, and shows of a
/// save what would be shown of the boards once the save is loaded.
pub proof fn preview_shows_what_loading_brings(
    app: AppView,
    save: CloudDataView,
    boards: Seq<BoardView>,
    date: Option<Seq<char>>,
)
    requires
        app.filtered_boards.len() == 0,
    ensures
        cloud_preview_shown(app, save, Some(boards), date).boards == app.boards,
        cloud_preview_shown(app, save, Some(boards), date).preview_visible == refreshed(
            cloud_save_loaded(app, save, Some(boards)),
        ).visible,
{
}

/// The save that is deleted is the one in the selected line, which is also the one that is opened to be
/// loaded.
pub proof fn the_selected_save_is_deleted(
    app: AppView,
    saves: Seq<CloudDataView>,
    key_file: Option<Seq<char>>,
    key: Seq<u8>,
)
    requires
        app.logged_in(),
        app.cloud_data == Some(saves),
        app.line() < saves.len(),
        user_key(app.key_argument, key_file) == Ok::<_, KeyError>(key),
    ensures
        deleted_save(app) == Some(saves[app.line() as int]),
        load_opened(app, key_file).1 matches Some((line, json)) ==> {
            &&& line == app.line()
            &&& opened_save(deleted_save(app)->0.board_data, key, deleted_save(app)->0.nonce) == Ok::<
                _,
                Seq<char>,
            >(json)
        },
        load_opened(app, key_file).1 is None <==> opened_save(
            deleted_save(app)->0.board_data,
            key,
            deleted_save(app)->0.nonce,
        ) is Err,
{
}

/// Nothing is deleted where nobody is logged in, no saves are known or the line is not one of a save,
/// and beginning a deletion only tells the user something.
pub proof fn nothing_else_is_deleted(app: AppView)
    ensures
        deleted_save(app) is None <==> {
            ||| app.login.auth_token is None
            ||| app.cloud_data is None
            ||| app.line() >= app.cloud_data->0.len()
        },
        delete_begun(app).only_told(app),
        deleted_save(app) is Some ==> delete_begun(app).toasts.len() == app.toasts.len() + 1,
{
}

/// Every board of a cloud save is loaded and every board is previewed, whatever the limits of what is
/// shown. A save whose boards cannot be read changes no board.
pub proof fn cloud_saves_are_loaded_whole(
    app: AppView,
    save: CloudDataView,
    boards: Seq<BoardView>,
    date: Seq<char>,
)
    ensures
        cloud_save_loaded(app, save, Some(boards)).boards == boards,
        cloud_save_loaded(app, save, Some(boards)).dispatched == app.dispatched.push(
            IoEvent::ResetVisibleBoardsandCards,
        ),
        cloud_save_loaded(app, save, Some(boards)).ui_mode == app.config.default_view,
        cloud_save_loaded(app, save, Some(boards)).cloud_data == app.cloud_data,
        cloud_save_loaded(app, save, Some(boards)).login == app.login,
        cloud_save_loaded(app, save, Some(boards)).toasts.last().message
            == "👍 Save file cloud_save_"@ + decimal(save.save_id as nat) + " loaded"@,
        cloud_save_loaded(app, save, None).only_told(app),
        cloud_preview_shown(app, save, Some(boards), Some(date)).preview_boards == Some(boards),
        cloud_preview_shown(app, save, Some(boards), None).preview_boards == Some(boards),
        cloud_preview_shown(app, save, Some(boards), Some(date)).preview_file_name == Some(
            "Cloud_save_"@ + decimal(save.save_id as nat) + " - "@ + date,
        ),
        cloud_preview_shown(app, save, Some(boards), None).preview_file_name
            == app.preview_file_name,
        cloud_preview_shown(app, save, Some(boards), Some(date)).toasts == app.toasts,
        cloud_preview_shown(app, save, None, Some(date)).only_told(app),
{
}

/// A cloud save is opened only with the key of the user, and the line that is opened is the selected
/// one. Where it is not opened, only the user is told something.
pub proof fn only_the_selected_save_is_opened(app: AppView, key_file: Option<Seq<char>>)
    ensures
        load_opened(app, key_file).0.only_told(app),
        preview_opened(app, key_file).0.only_told(app),
        preview_opened(app, key_file).1 matches Some((line, json)) ==> {
            &&& app.selected == Some(line)
            &&& app.cloud_data matches Some(saves)
            &&& line < saves.len()
            &&& user_key(app.key_argument, key_file) matches Ok(key)
            &&& opened_save(saves[line as int].board_data, key, saves[line as int].nonce) == Ok::<
                _,
                Seq<char>,
            >(json)
        },
        load_opened(app, key_file).1 matches Some((line, json)) ==> {
            &&& line == app.line()
            &&& app.cloud_data matches Some(saves)
            &&& line < saves.len()
            &&& user_key(app.key_argument, key_file) matches Ok(key)
            &&& opened_save(saves[line as int].board_data, key, saves[line as int].nonce) == Ok::<
                _,
                Seq<char>,
            >(json)
        },
{
}

/// The boards are stored under the number of the account and the number after the greatest so far, with
/// the token of the account, and only where there is a key and they could be encrypted with it.
pub proof fn boards_are_stored_under_the_next_number(
    app: AppView,
    service: Service,
    save_ids: Seq<usize>,
    key_file: Option<Seq<char>>,
    json: Option<Seq<char>>,
    nonce: Seq<u8>,
)
    ensures
        ({
            let (after, request) = sync_step(app, service, save_ids, key_file, json, nonce);
            &&& after.only_told(app)
            &&& request is Some ==> after == app
            &&& user_key(app.key_argument, key_file) is Err ==> request is None
            &&& json is None ==> request is None
            &&& request matches Some(r) ==> {
                let sealed = sealed_save(
                    json->0,
                    user_key(app.key_argument, key_file)->Ok_0,
                    nonce,
                );
                &&& sealed matches Ok((data, n))
                &&& r.body == Some(
                    save_record(app.login.user_id->0, data, next_id(save_ids) as usize, n),
                )
                &&& r.method == Method::Post
                &&& r.url == service.url@ + "/rest/v1/user_data"@
                &&& app.login.auth_token matches Some(token) ==> r.headers.last() == (
                    "Authorization"@,
                    "Bearer "@ + token,
                )
            }
        }),
{
}

/// A save that is stored is read back from the request and opened with the key as the boards that it was
/// made of.
pub proof fn stored_saves_are_readable(
    app: AppView,
    save_id: usize,
    key: Seq<u8>,
    json: Seq<char>,
    request: RequestView,
)
    requires
        stores_readably(app, save_id, key, json, request),
    ensures
        exists|board_data: Seq<char>, nonce: Seq<char>|
            {
                &&& request.body is Some
                &&& #[trigger] says(encode_utf8(request.body->0), "board_data"@, board_data)
                &&& #[trigger] says(encode_utf8(request.body->0), "nonce"@, nonce)
                &&& says_number(encode_utf8(request.body->0), "save_id"@, save_id)
                &&& opened_save(board_data, key, nonce) == Ok::<_, Seq<char>>(json)
            },
{
    let (board_data, nonce) = choose|board_data: Seq<char>, nonce: Seq<char>|
        {
            &&& request.body == Some(
                #[trigger] save_record(app.login.user_id->0, board_data, save_id, nonce),
            )
            &&& body_says(request, "user_id"@, app.login.user_id->0)
            &&& body_says(request, "board_data"@, board_data)
            &&& body_says(request, "nonce"@, nonce)
            &&& body_counts(request, "save_id"@, save_id)
            &&& opened_save(board_data, key, nonce) == Ok::<_, Seq<char>>(json)
        };
    assert(says(encode_utf8(request.body->0), "board_data"@, board_data));
    assert(says(encode_utf8(request.body->0), "nonce"@, nonce));
}

/// The cloud saves that are known are those of the last list, and where a save is found to be loaded the
/// user is told nothing.
pub proof fn known_saves_are_those_of_the_list(app: AppView, saves: Seq<CloudDataView>)
    ensures
        app.cloud_data == Some(saves) ==> known_saves(app) == saves,
        app.cloud_data is None ==> known_saves(app).len() == 0,
        load_begun(app).only_told(app),
        app.cloud_data == Some(saves) && app.line() < saves.len() ==> load_begun(app) == app,
        app.cloud_data == Some(saves) && app.line() >= saves.len() ==> load_begun(app) == app.error(
            "Cannot load save file: No such file"@,
        ),
{
}

/// A key is tried on a save exactly where there is none or the two fit.
pub proof fn keys_are_tried_where_they_fit(
    app: AppView,
    save: CloudDataView,
    key_file: Option<Seq<char>>,
    line: usize,
    json: String,
)
    ensures
        user_key(app.key_argument, key_file) is Err ==> key_can_be_tried(app, save, key_file),
        user_key(app.key_argument, key_file) matches Ok(key) ==> (key_can_be_tried(app, save, key_file)
            <==> save_fits(save.board_data, key, save.nonce)),
        opened_view(Some((line, json))) == Some((line, json@)),
        opened_view(None) is None,
{
}

} // verus!
