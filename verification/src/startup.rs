//! What happens when the program starts.

use crate::app::{
    themes_view, App, AppView, IoEvent, LoginView, Theme, ThemeView, ToastKind, ToastView,
    UserLoginData,
};
use crate::constants::{CONFIG_DIR_NAME, SAVE_DIR_NAME};
use crate::local::{boards_prepared, first_boards, prepare_boards, quoted_plainly, LastSave};
use crate::text::{free_of, lemma_separator_at_end, pieces, views};
use vstd::prelude::*;
use vstd::string::*;

verus! {

/// The directories that lead from the home directory to the settings.
pub open spec fn config_path(windows: bool) -> Seq<Seq<char>> {
    if windows {
        seq!["AppData"@, "Roaming"@, CONFIG_DIR_NAME@]
    } else {
        seq![".config"@, CONFIG_DIR_NAME@]
    }
}

/// The directories that lead from the home directory to the settings, if there is a home directory.
pub fn get_config_dir(home_known: bool, windows: bool) -> (path: Result<Vec<String>, String>)
    ensures
        match path {
            Ok(names) => home_known && views(names@) == config_path(windows),
            Err(message) => !home_known && message@ == "Error getting home directory"@,
        },
{
    if !home_known {
        return Err("Error getting home directory".to_owned());
    }
    let mut names: Vec<String> = Vec::new();
    if windows {
        names.push("AppData".to_owned());
        names.push("Roaming".to_owned());
    } else {
        names.push(".config".to_owned());
    }
    names.push(CONFIG_DIR_NAME.to_owned());
    assert(views(names@) =~= config_path(windows));
    Ok(names)
}

/// The directory of the saves, below the directory for temporary files.
pub fn get_save_dir() -> (name: String)
    ensures
        name@ == SAVE_DIR_NAME@,
{
    SAVE_DIR_NAME.to_owned()
}

/// What is to be done next to prepare the directory of the settings.
#[derive(Clone, Copy, Debug, PartialEq, Eq, Structural)]
pub enum ConfigStep {
    /// Find the directory.
    Locate,
    /// Look whether the directory exists.
    CheckDir,
    /// Make the directory.
    CreateDir,
    /// Look whether the file of the settings exists.
    CheckFile,
    /// Write the default settings to the file.
    WriteFile,
    /// Nothing.
    Ready,
}

/// What follows a step, given whether the answer to it was yes.
pub open spec fn config_step(step: ConfigStep, yes: bool) -> Result<ConfigStep, Seq<char>> {
    match (step, yes) {
        (ConfigStep::Locate, true) => Ok(ConfigStep::CheckDir),
        (ConfigStep::Locate, false) => Err("Error getting config directory"@),
        (ConfigStep::CheckDir, true) => Ok(ConfigStep::CheckFile),
        (ConfigStep::CheckDir, false) => Ok(ConfigStep::CreateDir),
        (ConfigStep::CreateDir, true) => Ok(ConfigStep::CheckFile),
        (ConfigStep::CreateDir, false) => Err("Error creating config directory"@),
        (ConfigStep::CheckFile, true) => Ok(ConfigStep::Ready),
        (ConfigStep::CheckFile, false) => Ok(ConfigStep::WriteFile),
        (ConfigStep::WriteFile, true) => Ok(ConfigStep::Ready),
        (ConfigStep::WriteFile, false) => Err("Error creating config file"@),
        (ConfigStep::Ready, _) => Ok(ConfigStep::Ready),
    }
}

/// What follows a step of preparing the directory of the settings. `yes` says that the directory was
/// found, that the directory or the file exists, or that it could be made.
pub fn prepare_config_dir(step: ConfigStep, yes: bool) -> (next: Result<ConfigStep, String>)
    ensures
        match next {
            Ok(n) => config_step(step, yes) == Ok::<_, Seq<char>>(n),
            Err(message) => config_step(step, yes) == Err::<ConfigStep, _>(message@),
        },
{
    match step {
        ConfigStep::Locate => if yes {
            Ok(ConfigStep::CheckDir)
        } else {
            Err("Error getting config directory".to_owned())
        },
        ConfigStep::CheckDir => if yes {
            Ok(ConfigStep::CheckFile)
        } else {
            Ok(ConfigStep::CreateDir)
        },
        ConfigStep::CreateDir => if yes {
            Ok(ConfigStep::CheckFile)
        } else {
            Err("Error creating config directory".to_owned())
        },
        ConfigStep::CheckFile => if yes {
            Ok(ConfigStep::Ready)
        } else {
            Ok(ConfigStep::WriteFile)
        },
        ConfigStep::WriteFile => if yes {
            Ok(ConfigStep::Ready)
        } else {
            Err("Error creating config file".to_owned())
        },
        ConfigStep::Ready => Ok(ConfigStep::Ready),
    }
}

/// What a row of answers leads to, from a step on.
pub open spec fn config_steps(step: ConfigStep, answers: Seq<bool>) -> Result<ConfigStep, Seq<char>>
    decreases answers.len(),
{
    if answers.len() == 0 {
        Ok(step)
    } else {
        match config_step(step, answers[0]) {
            Err(message) => Err(message),
            Ok(next) => config_steps(next, answers.skip(1)),
        }
    }
}

/// Five answers are enough to be ready or to fail.
pub proof fn config_dir_is_ready_after_five_answers(answers: Seq<bool>)
    requires
        answers.len() >= 5,
    ensures
        config_steps(ConfigStep::Locate, answers) matches Ok(step) ==> step == ConfigStep::Ready,
{
    reveal_with_fuel(config_steps, 6);
    let rest = answers.skip(1).skip(1).skip(1).skip(1).skip(1);
    lemma_ready_stays(rest);
    lemma_ready_stays(answers.skip(1).skip(1).skip(1).skip(1));
    lemma_ready_stays(answers.skip(1).skip(1).skip(1));
}

/// Once ready, nothing more is done.
proof fn lemma_ready_stays(answers: Seq<bool>)
    ensures
        config_steps(ConfigStep::Ready, answers) == Ok::<_, Seq<char>>(ConfigStep::Ready),
    decreases answers.len(),
{
    if answers.len() > 0 {
        lemma_ready_stays(answers.skip(1));
    }
}

/// A directory that is there is not made again, and a file that is there is not written over.
pub proof fn prepared_config_is_kept()
    ensures
        config_steps(ConfigStep::Locate, seq![true, true]) == Ok::<_, Seq<char>>(
            ConfigStep::CheckFile,
        ),
        config_step(ConfigStep::CheckFile, true) == Ok::<_, Seq<char>>(ConfigStep::Ready),
        forall|step: ConfigStep, yes: bool|
            #[trigger] config_step(step, yes) == Ok::<_, Seq<char>>(ConfigStep::CreateDir) ==> step
                == ConfigStep::CheckDir && !yes,
        forall|step: ConfigStep, yes: bool|
            #[trigger] config_step(step, yes) == Ok::<_, Seq<char>>(ConfigStep::WriteFile) ==> step
                == ConfigStep::CheckFile && !yes,
{
    reveal_with_fuel(config_steps, 3);
}

/// The place of the first theme of a name.
pub open spec fn theme_place(themes: Seq<ThemeView>, name: Seq<char>) -> Option<int>
    decreases themes.len(),
{
    if themes.len() == 0 {
        None
    } else {
        match theme_place(themes.drop_last(), name) {
            Some(i) => Some(i),
            None => if themes.last().name == name {
                Some(themes.len() - 1)
            } else {
                None
            },
        }
    }
}

/// The place is that of the first theme of the name, and there is one wherever a theme has the name.
pub proof fn theme_place_is_first(themes: Seq<ThemeView>, name: Seq<char>)
    ensures
        match theme_place(themes, name) {
            Some(i) => {
                &&& 0 <= i < themes.len()
                &&& themes[i].name == name
                &&& forall|j: int| 0 <= j < i ==> (#[trigger] themes[j]).name != name
            },
            None => forall|j: int| 0 <= j < themes.len() ==> (#[trigger] themes[j]).name != name,
        },
    decreases themes.len(),
{
    if themes.len() > 0 {
        let before = themes.drop_last();
        theme_place_is_first(before, name);
        assert forall|j: int| 0 <= j < before.len() implies themes[j] == before[j] by {}
        if theme_place(before, name) is None {
            assert forall|j: int| 0 <= j < before.len() implies (#[trigger] themes[j]).name != name by {
                assert(before[j].name != name);
            }
        } else {
            let i = theme_place(before, name)->0;
            assert forall|j: int| 0 <= j < i implies (#[trigger] themes[j]).name != name by {
                assert(before[j].name != name);
            }
        }
    }
}

/// The state after the themes of the user were added and the theme was chosen.
pub open spec fn themes_chosen(app: AppView, saved: Option<Seq<ThemeView>>) -> AppView {
    let themes = match saved {
        Some(list) => app.all_themes + list,
        None => app.all_themes,
    };
    let theme = match theme_place(themes, app.config.default_theme@) {
        Some(i) => themes[i],
        None => app.theme,
    };
    AppView {
        all_themes: themes,
        theme,
        term_background_color: match theme.background {
            Some(color) => color,
            None => (0, 0, 0),
        },
        ..app
    }
}

/// The name says something: it is not empty, and it is not the dot that stands for the directory
/// itself.
pub open spec fn telling() -> spec_fn(Seq<char>) -> bool {
    |name: Seq<char>| name.len() > 0 && name != "."@
}

/// Whether a path starts at the root, and the names in it. Empty names and dots count for nothing, but
/// for a dot at the very beginning.
pub open spec fn path_parts(path: Seq<char>) -> (bool, Seq<Seq<char>>) {
    let names = pieces(path, "/"@);
    let start = if names[0] == "."@ {
        seq!["."@]
    } else {
        seq![]
    };
    (path.len() > 0 && path[0] == '/', start + names.filter(telling()))
}

/// The path means the same on every operating system: it holds no backslash and no colon, and does not
/// start with two slashes.
pub open spec fn plain_path(path: Seq<char>) -> bool {
    &&& free_of(path, '\\')
    &&& free_of(path, ':')
    &&& !(path.len() >= 2 && path[0] == '/' && path[1] == '/')
}

/// `==` of `Path` compares two paths by their components. Of paths that mean the same on every operating
/// system it is said what the components are. What a backslash, a colon or two slashes at the
/// beginning mean is left to the operating system; a path is the same as itself everywhere.
#[verifier::external_body]
fn same_path(a: &str, b: &str) -> (same: bool)
    ensures
        a@ == b@ ==> same,
        plain_path(a@) && plain_path(b@) ==> same == (path_parts(a@) == path_parts(b@)),
{
    std::path::Path::new(a) == std::path::Path::new(b)
}

/// A slash at the end of a path changes nothing.
pub proof fn slash_at_end_changes_nothing(path: Seq<char>)
    requires
        path.len() > 0,
    ensures
        path_parts(path + "/"@) == path_parts(path),
{
    reveal_strlit("/");
    lemma_separator_at_end(path, "/"@);
    let names = pieces(path, "/"@);
    let empty = Seq::<char>::empty();
    reveal(Seq::filter);
    assert(names.push(empty).drop_last() =~= names);
    assert(!telling()(empty));
    assert(names.push(empty).filter(telling()) == names.filter(telling()));
    assert(names.push(empty)[0] == names[0]);
    assert((path + "/"@)[0] == path[0]);
}

/// What the user is told where the saves are in a directory for temporary files.
pub const TEMPORARY_SAVE_DIRECTORY: &'static str = "Save directory is set to a temporary directory,
            your operating system may delete it at any time. Please change it in the settings.";

/// The state after the program was started, up to the login. `temporary` says that the saves are in the
/// directory that is the default, which is one for temporary files.
pub open spec fn app_initialized(
    app: AppView,
    config_dir_prepared: bool,
    save_dir_prepared: bool,
    last: LastSave,
    saved_themes: Option<Seq<ThemeView>>,
    temporary: bool,
) -> AppView {
    let a = if config_dir_prepared {
        app
    } else {
        app.error("Cannot create config directory"@)
    };
    let b = if save_dir_prepared {
        a
    } else {
        a.error("Cannot create save directory"@)
    };
    let c = (AppView { boards: first_boards(b, last), ..boards_prepared(b, last) }).dispatch(
        IoEvent::ResetVisibleBoardsandCards,
    );
    let d = AppView {
        ui_mode: app.config.default_view,
        initialized: true,
        ..themes_chosen(c, saved_themes)
    };
    let e = if temporary {
        d.toast(ToastKind::Warning, TEMPORARY_SAVE_DIRECTORY@, Some(10))
    } else {
        d
    };
    let f = e.info("Application initialized"@);
    if app.config.auto_login {
        f.info("Attempting to auto login"@)
    } else {
        f
    }
}

/// The themes of a list, where there is one.
pub open spec fn themes_option(themes: Option<Vec<Theme>>) -> Option<Seq<ThemeView>> {
    match themes {
        Some(list) => Some(themes_view(list@)),
        None => None,
    }
}

/// What the user is told where the last login does not hold any more.
pub const LOGIN_EXPIRED: &'static str =
    "Previous access token has expired or does not exist. Please login again";

/// The state after the last login turned out not to hold any more. `removed` says whether the token
/// file could be removed; without it there was no such file.
pub open spec fn auto_login_refused(
    app: AppView,
    config_dir_known: bool,
    removed: Option<bool>,
) -> AppView {
    if !config_dir_known {
        app.error("Cannot get config directory"@)
    } else if removed == Some(false) {
        app.error("Cannot delete access token file"@)
    } else {
        app.warning(LOGIN_EXPIRED@)
    }
}

/// A copy of a theme.
fn copy_theme(theme: &Theme) -> (copy: Theme)
    ensures
        copy@ == theme@,
{
    Theme {
        name: theme.name.clone(),
        background: theme.background,
        details: theme.details.clone(),
    }
}

/// The last login, once the service said whose the token is.
pub fn test_access_token_on_disk(
    access_token: String,
    email_id: String,
    user_id: Result<String, String>,
) -> (login: Result<UserLoginData, String>)
    ensures
        match (user_id, login) {
            (Ok(id), Ok(data)) => data@ == (LoginView {
                auth_token: Some(access_token@),
                email_id: Some(email_id@),
                user_id: Some(id@),
            }),
            (Err(reason), Err(message)) => message@ == reason@,
            _ => false,
        },
{
    match user_id {
        Ok(id) => Ok(
            UserLoginData {
                auth_token: Some(access_token),
                email_id: Some(email_id),
                user_id: Some(id),
            },
        ),
        Err(message) => Err(message),
    }
}

impl App {
    /// Adds the themes of the user and chooses the theme.
    pub fn choose_theme(&mut self, saved_themes: Option<Vec<Theme>>)
        ensures
            final(self)@ == themes_chosen(old(self)@, themes_option(saved_themes)),
    {
        if let Some(mut saved) = saved_themes {
            let ghost before = self.all_themes@;
            let ghost added = saved@;
            self.all_themes.append(&mut saved);
            assert(themes_view(self.all_themes@) =~= themes_view(before) + themes_view(added));
        }
        let ghost themes = themes_view(self.all_themes@);
        let ghost wanted = self.config.default_theme@;
        let mut i: usize = 0;
        let mut found: bool = false;
        while i < self.all_themes.len() && !found
            invariant
                i <= self.all_themes@.len(),
                themes == themes_view(self.all_themes@),
                wanted == self.config.default_theme@,
                !found ==> theme_place(themes.take(i as int), wanted) is None,
                found ==> i < themes.len() && theme_place(themes, wanted) == Some(i as int),
            decreases
                self.all_themes@.len() - i + (if found {
                    0int
                } else {
                    1
                }),
        {
            assert(themes[i as int] == self.all_themes@[i as int]@);
            assert(themes.take(i + 1).drop_last() =~= themes.take(i as int));
            if self.all_themes[i].name == self.config.default_theme {
                proof {
                    theme_place_is_first(themes.take(i as int), wanted);
                    theme_place_is_first(themes, wanted);
                    assert forall|j: int| 0 <= j < i implies (#[trigger] themes[j]).name != wanted by {
                        assert(themes.take(i as int)[j].name != wanted);
                    }
                }
                found = true;
            } else {
                i = i + 1;
            }
        }
        if found {
            self.theme = copy_theme(&self.all_themes[i]);
        } else {
            assert(themes.take(i as int) =~= themes);
        }
        self.term_background_color = match self.theme.background {
            Some(color) => color,
            None => (0, 0, 0),
        };
    }

    /// Starts the program, up to the login, with what was found on the disk. `temporary` says that the
    /// saves are in the directory that is the default. The last login is to be tried where this says
    /// so.
    pub fn start(
        &mut self,
        config_dir_prepared: bool,
        save_dir_prepared: bool,
        last: LastSave,
        saved_themes: Option<Vec<Theme>>,
        temporary: bool,
    ) -> (try_login: bool)
        ensures
            try_login == old(self)@.config.auto_login,
            final(self)@ == app_initialized(
                old(self)@,
                config_dir_prepared,
                save_dir_prepared,
                last,
                themes_option(saved_themes),
                temporary,
            ),
            old(self)@.config.always_load_last_save ==> (last matches LastSave::Loaded(name, _)
                ==> quoted_plainly(name@)),
    {
        if !config_dir_prepared {
            self.send_error_toast("Cannot create config directory", None);
        }
        if !save_dir_prepared {
            self.send_error_toast("Cannot create save directory", None);
        }
        let boards = prepare_boards(self, last);
        self.set_boards(boards);
        self.dispatch(IoEvent::ResetVisibleBoardsandCards);
        self.choose_theme(saved_themes);
        self.ui_mode = self.config.default_view;
        self.initialized = true;
        if temporary {
            self.send_warning_toast(TEMPORARY_SAVE_DIRECTORY, Some(10));
        }
        self.send_info_toast("Application initialized", None);
        if self.config.auto_login {
            self.send_info_toast("Attempting to auto login", None);
        }
        self.config.auto_login
    }

    /// Starts the program, up to the login, with what was found on the disk. The user is warned where the
    /// saves are in the default directory: where its path and the one in the settings have the same
    /// parts. The last login is to be tried where this says so.
    pub fn initialize(
        &mut self,
        config_dir_prepared: bool,
        save_dir_prepared: bool,
        last: LastSave,
        saved_themes: Option<Vec<Theme>>,
        default_save_directory: &String,
    ) -> (try_login: bool)
        ensures
            try_login == old(self)@.config.auto_login,
            ({
                let started = |temporary: bool|
                    app_initialized(
                        old(self)@,
                        config_dir_prepared,
                        save_dir_prepared,
                        last,
                        themes_option(saved_themes),
                        temporary,
                    );
                let chosen = old(self)@.config.save_directory@;
                let default = default_save_directory@;
                &&& plain_path(chosen) && plain_path(default) ==> final(self)@ == started(
                    path_parts(chosen) == path_parts(default),
                )
                &&& chosen == default ==> final(self)@ == started(true)
                &&& final(self)@ == started(true) || final(self)@ == started(false)
            }),
            old(self)@.config.always_load_last_save ==> (last matches LastSave::Loaded(name, _)
                ==> quoted_plainly(name@)),
    {
        let temporary = same_path(
            self.config.save_directory.as_str(),
            default_save_directory.as_str(),
        );
        self.start(config_dir_prepared, save_dir_prepared, last, saved_themes, temporary)
    }

    /// Takes up the last login, which still holds.
    pub fn auto_login(&mut self, login: UserLoginData)
        ensures
            final(self)@ == (AppView { login: login@, ..old(self)@ }).info(
                "👍 Auto login successful"@,
            ),
    {
        self.user_login_data = login;
        self.send_info_toast("👍 Auto login successful", None);
    }

    /// Tells the user that the last login does not hold any more. `removed` says whether the token
    /// file could be removed; without it there was no such file.
    pub fn auto_login_failed(&mut self, config_dir_known: bool, removed: Option<bool>)
        ensures
            final(self)@ == auto_login_refused(old(self)@, config_dir_known, removed),
    {
        if !config_dir_known {
            self.send_error_toast("Cannot get config directory", None);
            return;
        }
        match removed {
            Some(false) => {
                self.send_error_toast("Cannot delete access token file", None);
            },
            _ => {
                self.send_warning_toast(LOGIN_EXPIRED, None);
            },
        }
    }
}

/// Starting the program asks for what is shown to be worked out, whatever was found on the disk, and
/// logs nobody in or out.
pub proof fn starting_asks_for_the_boards(
    app: AppView,
    config_dir_prepared: bool,
    save_dir_prepared: bool,
    last: LastSave,
    saved_themes: Option<Seq<ThemeView>>,
    temporary: bool,
)
    ensures
        ({
            let started = app_initialized(
                app,
                config_dir_prepared,
                save_dir_prepared,
                last,
                saved_themes,
                temporary,
            );
            &&& started.initialized
            &&& started.login == app.login
            &&& started.config == app.config
            &&& started.ui_mode == app.config.default_view
            &&& started.dispatched == app.dispatched.push(IoEvent::ResetVisibleBoardsandCards)
            &&& started.boards == first_boards(app, last)
        }),
{
}

/// The themes of the user come behind the others, in their order, and the theme is the first of the name
/// in the settings. Without such a theme it stays as it was. The background is that of the theme, and
/// black where it has none.
pub proof fn the_theme_is_the_first_of_its_name(app: AppView, saved: Seq<ThemeView>, i: int)
    ensures
        themes_chosen(app, Some(saved)).all_themes == app.all_themes + saved,
        themes_chosen(app, None).all_themes == app.all_themes,
        ({
            let after = themes_chosen(app, Some(saved));
            let all = app.all_themes + saved;
            let wanted = app.config.default_theme@;
            &&& 0 <= i < all.len() && all[i].name == wanted && (forall|j: int|
                0 <= j < i ==> (#[trigger] all[j]).name != wanted) ==> after.theme == all[i]
            &&& (forall|j: int| 0 <= j < all.len() ==> (#[trigger] all[j]).name != wanted)
                ==> after.theme == app.theme
            &&& after.theme.background matches Some(color) ==> after.term_background_color == color
            &&& after.theme.background is None ==> after.term_background_color == (0u8, 0u8, 0u8)
            &&& after == (AppView {
                all_themes: after.all_themes,
                theme: after.theme,
                term_background_color: after.term_background_color,
                ..app
            })
        }),
        ({
            let after = themes_chosen(app, None);
            let all = app.all_themes;
            let wanted = app.config.default_theme@;
            &&& 0 <= i < all.len() && all[i].name == wanted && (forall|j: int|
                0 <= j < i ==> (#[trigger] all[j]).name != wanted) ==> after.theme == all[i]
            &&& (forall|j: int| 0 <= j < all.len() ==> (#[trigger] all[j]).name != wanted)
                ==> after.theme == app.theme
            &&& after.theme.background matches Some(color) ==> after.term_background_color == color
            &&& after.theme.background is None ==> after.term_background_color == (0u8, 0u8, 0u8)
        }),
{
    theme_place_is_first(app.all_themes + saved, app.config.default_theme@);
    theme_place_is_first(app.all_themes, app.config.default_theme@);
}

/// The settings are in a directory of the program, below the one that the operating system has for
/// settings.
pub proof fn settings_have_their_place()
    ensures
        config_path(false).len() == 2,
        config_path(false)[0] == ".config"@,
        config_path(true).len() == 3,
        config_path(true)[0] == "AppData"@,
        config_path(true)[1] == "Roaming"@,
        config_path(false).last() == config_path(true).last(),
        config_path(false).last() == CONFIG_DIR_NAME@,
{
}

/// Preparing the settings fails exactly where the directory is not found, cannot be made, or the file
/// cannot be written.
pub proof fn preparing_fails_for_a_reason(step: ConfigStep, yes: bool)
    ensures
        config_step(step, yes) is Err <==> !yes && (step == ConfigStep::Locate || step
            == ConfigStep::CreateDir || step == ConfigStep::WriteFile),
        config_step(step, yes) == Ok::<_, Seq<char>>(ConfigStep::Ready) <==> step
            == ConfigStep::Ready || yes && (step == ConfigStep::CheckFile || step
            == ConfigStep::WriteFile),
{
}

/// The start warns once more where the saves are temporary, for ten seconds, and tells of each directory
/// that could not be prepared and of a login that is tried. It changes nothing that it does not speak
/// of.
pub proof fn the_start_tells_what_matters(
    app: AppView,
    last: LastSave,
    saved_themes: Option<Seq<ThemeView>>,
    config_dir_prepared: bool,
    save_dir_prepared: bool,
    temporary: bool,
)
    ensures
        ({
            let started = |config_dir: bool, save_dir: bool, in_default: bool|
                app_initialized(app, config_dir, save_dir, last, saved_themes, in_default);
            let after = started(config_dir_prepared, save_dir_prepared, temporary);
            let end = after.toasts.len() - if app.config.auto_login {
                2int
            } else {
                1
            };
            &&& after.toasts[end].message == "Application initialized"@
            &&& app.config.auto_login ==> after.toasts.last().message == "Attempting to auto login"@
            &&& temporary ==> after.toasts[end - 1] == (ToastView {
                kind: ToastKind::Warning,
                message: TEMPORARY_SAVE_DIRECTORY@,
                seconds: Some(10),
            })
            &&& started(config_dir_prepared, save_dir_prepared, true).toasts.len() == started(
                config_dir_prepared,
                save_dir_prepared,
                false,
            ).toasts.len() + 1
            &&& started(false, save_dir_prepared, temporary).toasts.len() == started(
                true,
                save_dir_prepared,
                temporary,
            ).toasts.len() + 1
            &&& started(config_dir_prepared, false, temporary).toasts.len() == started(
                config_dir_prepared,
                true,
                temporary,
            ).toasts.len() + 1
            &&& after == (AppView {
                boards: first_boards(app, last),
                all_themes: after.all_themes,
                theme: after.theme,
                term_background_color: after.term_background_color,
                toasts: after.toasts,
                dispatched: after.dispatched,
                ui_mode: app.config.default_view,
                initialized: true,
                ..app
            })
            &&& after.theme == themes_chosen(app, saved_themes).theme
            &&& after.all_themes == themes_chosen(app, saved_themes).all_themes
        }),
{
}

/// A login that does not hold any more is told once, and nothing else changes.
pub proof fn lost_logins_are_only_told(app: AppView, config_dir_known: bool, removed: Option<bool>)
    ensures
        ({
            let after = auto_login_refused(app, config_dir_known, removed);
            &&& after.only_told(app)
            &&& after.toasts.len() == app.toasts.len() + 1
            &&& after.toasts.last().kind == ToastKind::Warning <==> config_dir_known && removed
                != Some(false)
            &&& !config_dir_known ==> after.toasts.last().message == "Cannot get config directory"@
            &&& config_dir_known && removed == Some(false) ==> after.toasts.last().message
                == "Cannot delete access token file"@
            &&& config_dir_known && removed != Some(false) ==> after.toasts.last().message
                == LOGIN_EXPIRED@
        }),
{
}

/// A list of themes is seen in its order.
pub proof fn themes_are_seen_in_order(list: Vec<Theme>, i: int)
    ensures
        themes_option(None) is None,
        themes_option(Some(list)) matches Some(themes) && themes.len() == list@.len() && (0 <= i
            < list@.len() ==> themes[i].name == list@[i].name@ && themes[i].background
            == list@[i].background && themes[i].details == list@[i].details@),
{
}

} // verus!
