//! The state of the program, as far as input and output read or change it.

use crate::board::{
    boards_view, first_visible_board, first_visible_cards, no_visible_boards, shown,
    visible_boards_and_cards, visible_entries, Board, BoardView, VisibleBoards,
};
use crate::text::text_option;
use vstd::prelude::*;
use vstd::string::*;

verus! {

/// A screen of the user interface. Screens that nothing here asks about go by a number.
#[derive(Clone, Copy, Debug, PartialEq, Eq, Structural)]
pub enum UiMode {
    Login,
    ResetPassword,
    LoadLocalSave,
    Other(u16),
}

/// Work that the user interface asks for.
#[derive(Debug, PartialEq, Eq)]
pub enum IoEvent {
    Initialize,
    SaveLocalData,
    LoadSaveLocal,
    DeleteLocalSave,
    ResetVisibleBoardsandCards,
    AutoSave,
    LoadLocalPreview,
    /// Mail address and password.
    Login(String, String),
    Logout,
    /// Mail address, password and the password once more.
    SignUp(String, String, String),
    /// Mail address.
    SendResetPasswordEmail(String),
    /// Link, new password and the new password once more.
    ResetPassword(String, String, String),
    SyncLocalData,
    GetCloudData,
    LoadSaveCloud,
    LoadCloudPreview,
    DeleteCloudSave,
}

/// How serious a toast is.
#[derive(Clone, Copy, Debug, PartialEq, Eq, Structural)]
pub enum ToastKind {
    Info,
    Warning,
    Error,
}

/// A short message to the user.
#[derive(Debug, PartialEq, Eq)]
pub struct Toast {
    pub kind: ToastKind,
    pub message: String,
    /// How many seconds it stays, where that is not left to the user interface.
    pub seconds: Option<u64>,
}

/// What a toast is.
#[verifier::ext_equal]
pub struct ToastView {
    pub kind: ToastKind,
    pub message: Seq<char>,
    pub seconds: Option<u64>,
}

impl View for Toast {
    type V = ToastView;

    open spec fn view(&self) -> ToastView {
        ToastView { kind: self.kind, message: self.message@, seconds: self.seconds }
    }
}

/// The account that is logged in, if one is.
#[derive(Debug, PartialEq, Eq)]
pub struct UserLoginData {
    pub auth_token: Option<String>,
    pub email_id: Option<String>,
    pub user_id: Option<String>,
}

/// Which account is logged in.
#[verifier::ext_equal]
pub struct LoginView {
    pub auth_token: Option<Seq<char>>,
    pub email_id: Option<Seq<char>>,
    pub user_id: Option<Seq<char>>,
}

impl View for UserLoginData {
    type V = LoginView;

    open spec fn view(&self) -> LoginView {
        LoginView {
            auth_token: text_option(self.auth_token),
            email_id: text_option(self.email_id),
            user_id: text_option(self.user_id),
        }
    }
}

impl LoginView {
    /// Nobody is logged in.
    pub open spec fn nobody() -> LoginView {
        LoginView { auth_token: None, email_id: None, user_id: None }
    }

    /// Whoever is logged in is known by mail address and number.
    pub open spec fn complete(self) -> bool {
        self.auth_token is Some ==> self.email_id is Some && self.user_id is Some
    }
}

impl Default for UserLoginData {
    fn default() -> (data: UserLoginData)
        ensures
            data@ == LoginView::nobody(),
    {
        UserLoginData { auth_token: None, email_id: None, user_id: None }
    }
}

/// A save in the cloud, as it is stored there.
#[derive(Debug, PartialEq, Eq)]
pub struct CloudData {
    pub id: u64,
    pub created_at: String,
    pub user_id: String,
    pub board_data: String,
    pub nonce: String,
    pub save_id: usize,
}

/// What a save in the cloud is.
#[verifier::ext_equal]
pub struct CloudDataView {
    pub id: u64,
    pub created_at: Seq<char>,
    pub user_id: Seq<char>,
    pub board_data: Seq<char>,
    pub nonce: Seq<char>,
    pub save_id: usize,
}

impl View for CloudData {
    type V = CloudDataView;

    open spec fn view(&self) -> CloudDataView {
        CloudDataView {
            id: self.id,
            created_at: self.created_at@,
            user_id: self.user_id@,
            board_data: self.board_data@,
            nonce: self.nonce@,
            save_id: self.save_id,
        }
    }
}

impl Clone for CloudData {
    fn clone(&self) -> (copy: CloudData)
        ensures
            copy@ == self@,
    {
        CloudData {
            id: self.id,
            created_at: self.created_at.clone(),
            user_id: self.user_id.clone(),
            board_data: self.board_data.clone(),
            nonce: self.nonce.clone(),
            save_id: self.save_id,
        }
    }
}

/// What a list of saves in the cloud is.
pub open spec fn cloud_view(saves: Seq<CloudData>) -> Seq<CloudDataView> {
    saves.map_values(|save: CloudData| save@)
}

/// What a list of saves in the cloud is, where there is one.
pub open spec fn cloud_option(saves: Option<Vec<CloudData>>) -> Option<Seq<CloudDataView>> {
    match saves {
        Some(list) => Some(cloud_view(list@)),
        None => None,
    }
}

/// A theme of the user interface. Everything that it says besides its name and its background
/// stands in `details`, in the notation of the application.
#[derive(Debug, PartialEq, Eq)]
pub struct Theme {
    pub name: String,
    pub background: Option<(u8, u8, u8)>,
    pub details: String,
}

/// What a theme is.
#[verifier::ext_equal]
pub struct ThemeView {
    pub name: Seq<char>,
    pub background: Option<(u8, u8, u8)>,
    pub details: Seq<char>,
}

impl View for Theme {
    type V = ThemeView;

    open spec fn view(&self) -> ThemeView {
        ThemeView { name: self.name@, background: self.background, details: self.details@ }
    }
}

/// What the themes of a list are.
pub open spec fn themes_view(themes: Seq<Theme>) -> Seq<ThemeView> {
    themes.map_values(|theme: Theme| theme@)
}

/// The settings of the user.
#[derive(Debug, PartialEq, Eq)]
pub struct AppConfig {
    pub always_load_last_save: bool,
    pub auto_login: bool,
    pub no_of_boards_to_show: u16,
    pub no_of_cards_to_show: u16,
    pub default_view: UiMode,
    pub default_theme: String,
    pub save_directory: String,
    /// The notation of dates, as a `strftime` pattern.
    pub date_format: String,
}

/// The state of the program.
pub struct App {
    pub boards: Vec<Board>,
    /// The boards that pass the filter of the user, or none where there is no filter.
    pub filtered_boards: Vec<Board>,
    pub visible_boards_and_cards: VisibleBoards,
    pub config: AppConfig,
    pub all_themes: Vec<Theme>,
    pub theme: Theme,
    pub toasts: Vec<Toast>,
    /// The work that was asked for and is not yet begun.
    pub dispatched: Vec<IoEvent>,
    pub initialized: bool,
    pub loading: bool,
    pub user_login_data: UserLoginData,
    pub cloud_data: Option<Vec<CloudData>>,
    /// The line that is selected in the list of saves.
    pub load_save_state: Option<usize>,
    pub preview_boards_and_cards: Option<Vec<Board>>,
    pub preview_visible_boards_and_cards: VisibleBoards,
    pub preview_file_name: Option<String>,
    pub current_board_id: Option<(u64, u64)>,
    pub current_card_id: Option<(u64, u64)>,
    pub ui_mode: UiMode,
    pub term_background_color: (u8, u8, u8),
    /// When the last mail with a link to reset the password was sent, in nanoseconds of a clock
    /// that never goes back.
    pub last_reset_password_link_sent_time: Option<u128>,
    pub encryption_key_from_arguments: Option<String>,
}

/// What the state of the program is.
#[verifier::ext_equal]
pub struct AppView {
    pub boards: Seq<BoardView>,
    pub filtered_boards: Seq<BoardView>,
    pub visible: Seq<((u64, u64), Seq<(u64, u64)>)>,
    pub config: AppConfig,
    pub all_themes: Seq<ThemeView>,
    pub theme: ThemeView,
    pub toasts: Seq<ToastView>,
    pub dispatched: Seq<IoEvent>,
    pub initialized: bool,
    pub loading: bool,
    pub login: LoginView,
    pub cloud_data: Option<Seq<CloudDataView>>,
    pub selected: Option<usize>,
    pub preview_boards: Option<Seq<BoardView>>,
    pub preview_visible: Seq<((u64, u64), Seq<(u64, u64)>)>,
    pub preview_file_name: Option<Seq<char>>,
    pub current_board_id: Option<(u64, u64)>,
    pub current_card_id: Option<(u64, u64)>,
    pub ui_mode: UiMode,
    pub term_background_color: (u8, u8, u8),
    pub reset_link_sent: Option<u128>,
    pub key_argument: Option<Seq<char>>,
}

/// What the boards of a list are, where there is one.
pub open spec fn boards_option(boards: Option<Vec<Board>>) -> Option<Seq<BoardView>> {
    match boards {
        Some(list) => Some(boards_view(list@)),
        None => None,
    }
}

/// What the toasts of a list are.
pub open spec fn toasts_view(toasts: Seq<Toast>) -> Seq<ToastView> {
    toasts.map_values(|toast: Toast| toast@)
}

impl View for App {
    type V = AppView;

    open spec fn view(&self) -> AppView {
        AppView {
            boards: boards_view(self.boards@),
            filtered_boards: boards_view(self.filtered_boards@),
            visible: visible_entries(self.visible_boards_and_cards),
            config: self.config,
            all_themes: themes_view(self.all_themes@),
            theme: self.theme@,
            toasts: toasts_view(self.toasts@),
            dispatched: self.dispatched@,
            initialized: self.initialized,
            loading: self.loading,
            login: self.user_login_data@,
            cloud_data: cloud_option(self.cloud_data),
            selected: self.load_save_state,
            preview_boards: boards_option(self.preview_boards_and_cards),
            preview_visible: visible_entries(self.preview_visible_boards_and_cards),
            preview_file_name: text_option(self.preview_file_name),
            current_board_id: self.current_board_id,
            current_card_id: self.current_card_id,
            ui_mode: self.ui_mode,
            term_background_color: self.term_background_color,
            reset_link_sent: self.last_reset_password_link_sent_time,
            key_argument: text_option(self.encryption_key_from_arguments),
        }
    }
}

impl AppView {
    /// One more toast.
    pub open spec fn toast(self, kind: ToastKind, message: Seq<char>, seconds: Option<u64>) -> AppView {
        AppView { toasts: self.toasts.push(ToastView { kind, message, seconds }), ..self }
    }

    /// One more toast that names an error.
    pub open spec fn error(self, message: Seq<char>) -> AppView {
        self.toast(ToastKind::Error, message, None)
    }

    /// One more toast that warns.
    pub open spec fn warning(self, message: Seq<char>) -> AppView {
        self.toast(ToastKind::Warning, message, None)
    }

    /// One more toast that informs.
    pub open spec fn info(self, message: Seq<char>) -> AppView {
        self.toast(ToastKind::Info, message, None)
    }

    /// One more piece of work asked for.
    pub open spec fn dispatch(self, event: IoEvent) -> AppView {
        AppView { dispatched: self.dispatched.push(event), ..self }
    }

    /// Somebody is logged in.
    pub open spec fn logged_in(self) -> bool {
        self.login.auth_token is Some
    }

    /// The line that is selected in the list of saves, and otherwise the first.
    pub open spec fn line(self) -> usize {
        match self.selected {
            Some(line) => line,
            None => 0,
        }
    }

    /// Nothing but toasts was added.
    pub open spec fn only_told(self, before: AppView) -> bool {
        &&& before.toasts.is_prefix_of(self.toasts)
        &&& self == (AppView { toasts: self.toasts, ..before })
    }
}

impl App {
    /// Shows a toast.
    fn send_toast(&mut self, kind: ToastKind, message: &str, seconds: Option<u64>)
        ensures
            final(self)@ == old(self)@.toast(kind, message@, seconds),
    {
        let ghost before = self.toasts@;
        self.toasts.push(Toast { kind, message: message.to_owned(), seconds });
        assert(toasts_view(self.toasts@) =~= toasts_view(before).push(
            ToastView { kind, message: message@, seconds },
        ));
    }

    /// Shows a toast that names an error.
    pub fn send_error_toast(&mut self, message: &str, seconds: Option<u64>)
        ensures
            final(self)@ == old(self)@.toast(ToastKind::Error, message@, seconds),
    {
        self.send_toast(ToastKind::Error, message, seconds);
    }

    /// Shows a toast that warns.
    pub fn send_warning_toast(&mut self, message: &str, seconds: Option<u64>)
        ensures
            final(self)@ == old(self)@.toast(ToastKind::Warning, message@, seconds),
    {
        self.send_toast(ToastKind::Warning, message, seconds);
    }

    /// Shows a toast that informs.
    pub fn send_info_toast(&mut self, message: &str, seconds: Option<u64>)
        ensures
            final(self)@ == old(self)@.toast(ToastKind::Info, message@, seconds),
    {
        self.send_toast(ToastKind::Info, message, seconds);
    }

    /// Asks for work.
    pub fn dispatch(&mut self, event: IoEvent)
        ensures
            final(self)@ == old(self)@.dispatch(event),
    {
        self.dispatched.push(event);
    }

    /// Replaces the boards.
    pub fn set_boards(&mut self, boards: Vec<Board>)
        ensures
            final(self)@ == (AppView { boards: boards_view(boards@), ..old(self)@ }),
    {
        self.boards = boards;
    }

    /// Goes to a screen.
    pub fn set_ui_mode(&mut self, ui_mode: UiMode)
        ensures
            final(self)@ == (AppView { ui_mode, ..old(self)@ }),
    {
        self.ui_mode = ui_mode;
    }

    /// Tells whether a screen is the current one.
    pub fn is_on_screen(&self, ui_mode: UiMode) -> (current: bool)
        ensures
            current == (self@.ui_mode == ui_mode),
    {
        self.ui_mode == ui_mode
    }

    /// Tells whether somebody is logged in.
    pub fn is_logged_in(&self) -> (logged_in: bool)
        ensures
            logged_in == self@.logged_in(),
    {
        self.user_login_data.auth_token.is_some()
    }

    /// The line that is selected in the list of saves, and otherwise the first.
    pub fn line_or_first(&self) -> (line: usize)
        ensures
            line == self@.line(),
    {
        match self.load_save_state {
            Some(line) => line,
            None => 0,
        }
    }

    /// Ends a piece of work. `failed` says that it ended with an error that nobody reported.
    pub fn finish_io_event(&mut self, failed: bool)
        ensures
            final(self)@ == (AppView {
                loading: false,
                ..if failed {
                    old(self)@.error("Oops, something wrong happened 😢"@)
                } else {
                    old(self)@
                }
            }),
    {
        if failed {
            self.send_error_toast("Oops, something wrong happened 😢", None);
        }
        self.loading = false;
    }
}

/// The boards that are looked at: those that pass the filter, if there is one.
pub open spec fn filtered_or_all(app: AppView) -> Seq<BoardView> {
    if app.filtered_boards.len() == 0 {
        app.boards
    } else {
        app.filtered_boards
    }
}

/// The state after what is shown was worked out anew. The first board that is shown becomes the
/// current one, and its first card, if one is shown, the current card.
pub open spec fn refreshed(app: AppView) -> AppView {
    let entries = shown(
        filtered_or_all(app),
        app.config.no_of_boards_to_show,
        app.config.no_of_cards_to_show,
    );
    AppView {
        visible: entries,
        current_board_id: if entries.len() > 0 {
            Some(entries[0].0)
        } else {
            app.current_board_id
        },
        current_card_id: if entries.len() > 0 && entries[0].1.len() > 0 {
            Some(entries[0].1[0])
        } else {
            app.current_card_id
        },
        ..app
    }
}

/// Works out anew which boards and cards are shown.
pub fn refresh_visible_boards_and_cards(app: &mut App)
    ensures
        final(app)@ == refreshed(old(app)@),
{
    let boards = if app.filtered_boards.len() == 0 {
        &app.boards
    } else {
        &app.filtered_boards
    };
    let visible = visible_boards_and_cards(
        boards,
        app.config.no_of_boards_to_show,
        app.config.no_of_cards_to_show,
    );
    app.visible_boards_and_cards = visible;
    if !no_visible_boards(&app.visible_boards_and_cards) {
        app.current_board_id = first_visible_board(&app.visible_boards_and_cards);
        if let Some(cards) = first_visible_cards(&app.visible_boards_and_cards) {
            if cards.len() > 0 {
                let card = cards[0];
                app.current_card_id = Some(card);
            }
        }
    }
}

/// Working out anew what is shown changes nothing once it has been worked out.
pub proof fn refreshing_twice_changes_nothing_more(app: AppView)
    ensures
        refreshed(refreshed(app)) == refreshed(app),
{
}

/// A toast comes behind the others with its kind, its message and its time, and changes nothing else.
pub proof fn toasts_come_behind_the_others(
    app: AppView,
    kind: ToastKind,
    message: Seq<char>,
    seconds: Option<u64>,
)
    ensures
        ({
            let after = app.toast(kind, message, seconds);
            let n = app.toasts.len() as int;
            &&& after.toasts.len() == n + 1
            &&& after.toasts.take(n) == app.toasts
            &&& after.toasts[n].kind == kind
            &&& after.toasts[n].message == message
            &&& after.toasts[n].seconds == seconds
            &&& after == (AppView { toasts: after.toasts, ..app })
        }),
        app.error(message) == app.toast(ToastKind::Error, message, None),
        app.warning(message) == app.toast(ToastKind::Warning, message, None),
        app.info(message) == app.toast(ToastKind::Info, message, None),
{
    assert(app.toast(kind, message, seconds).toasts.take(app.toasts.len() as int) =~= app.toasts);
}

/// Work that is asked for comes behind the work that was asked for before, and nothing else changes.
pub proof fn work_comes_behind_other_work(app: AppView, event: IoEvent)
    ensures
        app.dispatch(event).dispatched.len() == app.dispatched.len() + 1,
        app.dispatch(event).dispatched.take(app.dispatched.len() as int) == app.dispatched,
        app.dispatch(event).dispatched.last() == event,
        app.dispatch(event) == (AppView { dispatched: app.dispatch(event).dispatched, ..app }),
{
    assert(app.dispatch(event).dispatched.take(app.dispatched.len() as int) =~= app.dispatched);
}

/// Everything in the state is seen, and as it is.
pub proof fn the_state_is_seen_whole(app: App)
    ensures
        app@.boards == boards_view(app.boards@),
        app@.filtered_boards == boards_view(app.filtered_boards@),
        app@.visible == visible_entries(app.visible_boards_and_cards),
        app@.config == app.config,
        app@.initialized == app.initialized,
        app@.loading == app.loading,
        app@.dispatched == app.dispatched@,
        app@.selected == app.load_save_state,
        app@.preview_visible == visible_entries(app.preview_visible_boards_and_cards),
        app@.current_board_id == app.current_board_id,
        app@.current_card_id == app.current_card_id,
        app@.ui_mode == app.ui_mode,
        app@.term_background_color == app.term_background_color,
        app@.reset_link_sent == app.last_reset_password_link_sent_time,
        app.user_login_data.auth_token matches Some(token) ==> app@.login.auth_token == Some(token@),
        app.user_login_data.auth_token is None ==> app@.login.auth_token is None,
        app.user_login_data.email_id matches Some(email) ==> app@.login.email_id == Some(email@),
        app.user_login_data.email_id is None ==> app@.login.email_id is None,
        app.user_login_data.user_id matches Some(id) ==> app@.login.user_id == Some(id@),
        app.user_login_data.user_id is None ==> app@.login.user_id is None,
        app.preview_boards_and_cards matches Some(list) ==> app@.preview_boards == Some(
            boards_view(list@),
        ),
        app.preview_boards_and_cards is None ==> app@.preview_boards is None,
        app.preview_file_name matches Some(name) ==> app@.preview_file_name == Some(name@),
        app.preview_file_name is None ==> app@.preview_file_name is None,
        app.encryption_key_from_arguments matches Some(key) ==> app@.key_argument == Some(key@),
        app.encryption_key_from_arguments is None ==> app@.key_argument is None,
        app.cloud_data is None ==> app@.cloud_data is None,
        app.cloud_data is Some ==> app@.cloud_data is Some,
{
}

/// Lists are seen in their order: the toasts, the themes and the cloud saves of the state, each with
/// everything that it says.
pub proof fn lists_are_seen_in_order(app: App, saves: Vec<CloudData>, i: int)
    ensures
        app@.toasts.len() == app.toasts@.len(),
        0 <= i < app.toasts@.len() ==> app@.toasts[i].kind == app.toasts@[i].kind
            && app@.toasts[i].message == app.toasts@[i].message@ && app@.toasts[i].seconds
            == app.toasts@[i].seconds,
        app@.all_themes.len() == app.all_themes@.len(),
        0 <= i < app.all_themes@.len() ==> app@.all_themes[i].name == app.all_themes@[i].name@
            && app@.all_themes[i].background == app.all_themes@[i].background
            && app@.all_themes[i].details == app.all_themes@[i].details@,
        app@.theme.name == app.theme.name@,
        app@.theme.background == app.theme.background,
        app@.theme.details == app.theme.details@,
        app.cloud_data == Some(saves) ==> app@.cloud_data->0.len() == saves@.len(),
        app.cloud_data == Some(saves) && 0 <= i < saves@.len() ==> {
            let save = app@.cloud_data->0[i];
            &&& save.id == saves@[i].id
            &&& save.created_at == saves@[i].created_at@
            &&& save.user_id == saves@[i].user_id@
            &&& save.board_data == saves@[i].board_data@
            &&& save.nonce == saves@[i].nonce@
            &&& save.save_id == saves@[i].save_id
        },
{
}

/// The boards that pass the filter are shown, and all boards where there is no filter. The first that is
/// shown is the current one, with its first card, and where none is shown the current one stays.
pub proof fn the_first_that_is_shown_is_current(app: AppView)
    ensures
        ({
            let after = refreshed(app);
            let limits = (app.config.no_of_boards_to_show, app.config.no_of_cards_to_show);
            &&& app.filtered_boards.len() == 0 ==> after.visible == shown(
                app.boards,
                limits.0,
                limits.1,
            )
            &&& app.filtered_boards.len() > 0 ==> after.visible == shown(
                app.filtered_boards,
                limits.0,
                limits.1,
            )
            &&& after.visible.len() > 0 ==> after.current_board_id == Some(after.visible[0].0)
            &&& after.visible.len() > 0 && after.visible[0].1.len() > 0 ==> after.current_card_id
                == Some(after.visible[0].1[0])
            &&& after.visible.len() == 0 ==> after.current_board_id == app.current_board_id
            &&& after.visible.len() == 0 || after.visible[0].1.len() == 0 ==> after.current_card_id
                == app.current_card_id
            &&& after == (AppView {
                visible: after.visible,
                current_board_id: after.current_board_id,
                current_card_id: after.current_card_id,
                ..app
            })
        }),
{
}

/// Somebody is logged in where there is an access token; nobody has a token, a mail address or a number;
/// and the selected line is the one that was chosen, or the first.
pub proof fn small_questions_about_the_state(app: AppView)
    ensures
        app.logged_in() <==> app.login.auth_token is Some,
        LoginView::nobody().auth_token is None,
        LoginView::nobody().email_id is None,
        LoginView::nobody().user_id is None,
        app.selected matches Some(line) ==> app.line() == line,
        app.selected is None ==> app.line() == 0,
{
}

/// Boards and cloud saves that are handed over are seen as they are.
pub proof fn what_is_handed_over_is_seen(boards: Vec<Board>, saves: Vec<CloudData>)
    ensures
        boards_option(Some(boards)) == Some(boards_view(boards@)),
        boards_option(None) is None,
        cloud_option(None) is None,
        cloud_option(Some(saves)) matches Some(list) && list.len() == saves@.len(),
{
}

/// Where only toasts were added, the others are still there and nothing else is different.
pub proof fn only_toasts_are_different(after: AppView, before: AppView)
    requires
        after.only_told(before),
    ensures
        after.toasts.len() >= before.toasts.len(),
        after.toasts.take(before.toasts.len() as int) == before.toasts,
        after == (AppView { toasts: after.toasts, ..before }),
{
    assert(after.toasts.take(before.toasts.len() as int) =~= before.toasts);
}

} // verus!
