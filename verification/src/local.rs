//! The saves in the save directory: writing, loading, previewing and deleting them.

use crate::app::{boards_option, refreshed, App, AppView, IoEvent, UiMode};
use crate::board::{
    boards_are_the_same_where_everything_is, boards_view, same_boards, shown, visible_boards_and_cards,
    Board, BoardView,
};
use crate::saves::files_view;
use crate::text::{text_option, views};
use vstd::prelude::*;
use vstd::string::*;

verus! {

/// The latest save in the save directory.
pub enum LastSave {
    /// There is none.
    Missing,
    /// It could not be read.
    Unreadable,
    /// The name of its file and the boards in it.
    Loaded(String, Vec<Board>),
}

/// Tells which kind of latest save there is: `latest` is the name of its file, if there is one, and
/// `read` the boards in it, if they could be read.
pub fn last_save(latest: Result<String, String>, read: Option<Vec<Board>>) -> (last: LastSave)
    ensures
        last == match (latest, read) {
            (Err(_), _) => LastSave::Missing,
            (Ok(_), None) => LastSave::Unreadable,
            (Ok(name), Some(boards)) => LastSave::Loaded(name, boards),
        },
{
    match (latest, read) {
        (Err(_), _) => LastSave::Missing,
        (Ok(_), None) => LastSave::Unreadable,
        (Ok(name), Some(boards)) => LastSave::Loaded(name, boards),
    }
}

/// The file name of the latest save and the boards in it, if it could be read.
pub open spec fn loaded_save(last: LastSave) -> Option<(Seq<char>, Seq<BoardView>)> {
    match last {
        LastSave::Loaded(name, boards) => Some((name@, boards_view(boards@))),
        _ => None,
    }
}

/// The boards are not those of the latest save.
pub open spec fn unsaved(app: AppView, last: LastSave) -> bool {
    match loaded_save(last) {
        Some((_, boards)) => app.boards != boards,
        None => true,
    }
}

/// Tells whether the boards are to be saved: they are not those of the latest save.
pub fn save_required(app: &App, last: &LastSave) -> (required: bool)
    ensures
        required == unsaved(app@, *last),
        last matches LastSave::Loaded(_, boards) ==> required == (boards_view(app.boards@)
            != boards_view(boards@)),
        !(last is Loaded) ==> required,
{
    match last {
        LastSave::Loaded(_, boards) => !same_boards(&app.boards, boards),
        _ => true,
    }
}

/// The boards that are to be saved unasked, if they need to be.
pub fn auto_save<'a>(app: &'a App, last: &LastSave) -> (boards: Option<&'a Vec<Board>>)
    ensures
        match boards {
            Some(b) => unsaved(app@, *last) && boards_view(b@) == app@.boards && *b == app.boards,
            None => !unsaved(app@, *last),
        },
        boards is None <==> (last matches LastSave::Loaded(_, saved) && boards_view(saved@)
            == boards_view(app.boards@)),
{
    if save_required(app, last) {
        Some(&app.boards)
    } else {
        None
    }
}

/// Once the boards were saved, they need not be saved again.
pub proof fn saved_boards_need_no_save(app: AppView, name: String, boards: Vec<Board>)
    requires
        boards_view(boards@) == app.boards,
    ensures
        !unsaved(app, LastSave::Loaded(name, boards)),
{
}

/// The text between double quotes, with escapes in it where it needs them.
pub uninterp spec fn debug_quoted(text: Seq<char>) -> Seq<char>;

/// The character may stand in the name of a save file.
pub open spec fn is_plain(c: char) -> bool {
    ||| 'a' <= c <= 'z'
    ||| 'A' <= c <= 'Z'
    ||| '0' <= c <= '9'
    ||| c == '-'
    ||| c == '_'
    ||| c == '.'
}

/// A text of such characters alone is quoted as it is.
pub open spec fn quoted_plainly(text: Seq<char>) -> bool {
    (forall|i: int| 0 <= i < text.len() ==> is_plain(#[trigger] text[i])) ==> debug_quoted(text)
        == seq!['"'] + text + seq!['"']
}

/// `format!` with `{:?}` writes a text between double quotes. Letters and digits of ASCII, hyphens,
/// underscores and dots stay as they are.
#[verifier::external_body]
fn quote(text: &String) -> (quoted: String)
    ensures
        quoted@ == debug_quoted(text@),
        (forall|i: int| 0 <= i < text@.len() ==> is_plain(#[trigger] text@[i])) ==> quoted@ == seq![
            '"',
        ] + text@ + seq!['"'],
{
    format!("{:?}", text)
}

/// The state after the boards of the latest save were prepared.
pub open spec fn boards_prepared(app: AppView, last: LastSave) -> AppView {
    if !app.config.always_load_last_save {
        AppView { ui_mode: UiMode::LoadLocalSave, ..app }
    } else {
        match last {
            LastSave::Missing => app,
            LastSave::Unreadable => app.error(
                "👎 Cannot get local data, Data might be corrupted or is not in the correct format"@,
            ),
            LastSave::Loaded(name, _) => app.info(
                "👍 Local data loaded from "@ + debug_quoted(name@),
            ),
        }
    }
}

/// The boards with which the program starts.
pub open spec fn first_boards(app: AppView, last: LastSave) -> Seq<BoardView> {
    match loaded_save(last) {
        Some((_, boards)) if app.config.always_load_last_save => boards,
        _ => seq![],
    }
}

/// Prepares the boards with which the program starts: those of the latest save, where the user wants
/// them, and otherwise none. The latest save does not matter where the user does not want it.
pub fn prepare_boards(app: &mut App, last: LastSave) -> (boards: Vec<Board>)
    ensures
        boards_view(boards@) == first_boards(old(app)@, last),
        old(app).config.always_load_last_save ==> (last matches LastSave::Loaded(_, saved)
            ==> boards == saved),
        !old(app).config.always_load_last_save || !(last is Loaded) ==> boards@.len() == 0,
        final(app)@ == boards_prepared(old(app)@, last),
        old(app)@.config.always_load_last_save ==> (last matches LastSave::Loaded(name, _)
            ==> quoted_plainly(name@)),
{
    if !app.config.always_load_last_save {
        app.set_ui_mode(UiMode::LoadLocalSave);
        return no_boards();
    }
    match last {
        LastSave::Missing => no_boards(),
        LastSave::Unreadable => {
            app.send_error_toast(
                "👎 Cannot get local data, Data might be corrupted or is not in the correct format",
                None,
            );
            no_boards()
        },
        LastSave::Loaded(name, boards) => {
            let mut message = "👍 Local data loaded from ".to_owned();
            let quoted = quote(&name);
            message.append(quoted.as_str());
            app.send_info_toast(message.as_str(), None);
            boards
        },
    }
}

/// No boards.
fn no_boards() -> (boards: Vec<Board>)
    ensures
        boards_view(boards@) == Seq::<BoardView>::empty(),
        boards@.len() == 0,
{
    let boards: Vec<Board> = Vec::new();
    assert(boards_view(boards@) =~= Seq::<BoardView>::empty());
    boards
}

/// The files in the save directory, as far as they are known.
pub open spec fn known_files(files: Option<Seq<Seq<char>>>) -> Seq<Seq<char>> {
    match files {
        Some(list) => list,
        None => seq![],
    }
}

/// The file in a line of the list of saves.
pub open spec fn file_in_line(files: Option<Seq<Seq<char>>>, line: usize) -> Option<Seq<char>> {
    if line < known_files(files).len() {
        Some(known_files(files)[line as int])
    } else {
        None
    }
}

/// Finds the file in a line of the list of saves.
fn find_file(files: &Option<Vec<String>>, line: usize) -> (file: Option<String>)
    ensures
        text_option(file) == file_in_line(files_view(*files), line),
        files matches Some(list) ==> if line < list@.len() {
            file matches Some(f) && f@ == list@[line as int]@
        } else {
            file is None
        },
        files is None ==> file is None,
{
    match files {
        None => None,
        Some(list) => if line < list.len() {
            assert(views(list@)[line as int] == list@[line as int]@);
            Some(list[line].clone())
        } else {
            None
        },
    }
}

/// The state after a file was looked for, with what the user is told where it is not there.
pub open spec fn file_looked_for(
    app: AppView,
    files: Option<Seq<Seq<char>>>,
    no_such_file: Seq<char>,
) -> AppView {
    let told = if files is None {
        app.error("Could not get local save files"@)
    } else {
        app
    };
    if file_in_line(files, app.line()) is None {
        told.error(no_such_file)
    } else {
        told
    }
}

/// The state after a local save was read.
pub open spec fn local_save_loaded(
    app: AppView,
    name: Seq<char>,
    boards: Option<Seq<BoardView>>,
) -> AppView {
    let told = match boards {
        Some(list) => (AppView { boards: list, ..app }).info(
            "👍 Save file "@ + debug_quoted(name) + " loaded"@,
        ),
        None => app.error("Cannot load save file"@),
    };
    AppView {
        ui_mode: app.config.default_view,
        ..told.dispatch(IoEvent::ResetVisibleBoardsandCards)
    }
}

/// Why no file is deleted, where none is.
pub open spec fn delete_refusal(app: AppView, files: Option<Seq<Seq<char>>>) -> Option<Seq<char>> {
    match (files, app.selected) {
        (None, _) => Some("Cannot delete save file: no save files found"@),
        (_, None) => Some("Cannot delete save file: no save file selected"@),
        (Some(list), Some(line)) => if line >= list.len() {
            Some("Cannot delete save file: Something went wrong"@)
        } else {
            None
        },
    }
}

/// What came of the deletion of a file.
#[derive(Clone, Copy, Debug, PartialEq, Eq, Structural)]
pub enum Deletion {
    /// The file was not there.
    NotFound,
    /// The file could not be deleted.
    Failed,
    Done,
}

/// The state after the deletion of a file.
pub open spec fn file_deleted(app: AppView, deletion: Deletion) -> AppView {
    match deletion {
        Deletion::NotFound => app.error("Cannot delete save file: file not found"@),
        Deletion::Failed => AppView {
            selected: None,
            ..app.error("Cannot delete save file: Something went wrong"@)
        },
        Deletion::Done => app.info("👍 Save file deleted"@),
    }
}

/// The line that is selected after the files were listed anew: the same one, if there still is such a
/// line, and otherwise the last.
pub open spec fn line_kept(selected: Option<usize>, files: Option<nat>) -> Option<usize> {
    match (selected, files) {
        (_, None) => None,
        (None, _) => None,
        (Some(line), Some(count)) => if line < count {
            Some(line)
        } else if count == 0 {
            None
        } else {
            Some((count - 1) as usize)
        },
    }
}

/// After a deletion, the selected line is one of the list, and there is one wherever the list has any.
pub proof fn selection_stays_in_range(selected: usize, count: nat)
    requires
        count <= usize::MAX,
    ensures
        match line_kept(Some(selected), Some(count)) {
            Some(line) => line < count && line <= selected,
            None => count == 0,
        },
        selected < count ==> line_kept(Some(selected), Some(count)) == Some(selected),
{
}

/// The state after a preview of a local save was read.
pub open spec fn local_preview_shown(
    app: AppView,
    name: Seq<char>,
    boards: Option<Seq<BoardView>>,
) -> AppView {
    match boards {
        None => app.error("Error loading preview"@),
        Some(list) => AppView {
            preview_boards: Some(list),
            preview_visible: shown(
                list,
                app.config.no_of_boards_to_show,
                app.config.no_of_cards_to_show,
            ),
            preview_file_name: Some(name),
            ..app
        },
    }
}

impl App {
    /// Begins to save the boards. They are to be written where this says so.
    pub fn begin_local_save(&mut self, last: &LastSave) -> (go_on: bool)
        ensures
            go_on == unsaved(old(self)@, *last),
            go_on <==> !(last matches LastSave::Loaded(_, saved) && boards_view(saved@)
                == boards_view(old(self).boards@)),
            final(self)@ == if unsaved(old(self)@, *last) {
                old(self)@
            } else {
                old(self)@.warning("No changes to save"@)
            },
    {
        if save_required(self, last) {
            true
        } else {
            self.send_warning_toast("No changes to save", None);
            false
        }
    }

    /// Ends to save the boards.
    pub fn finish_local_save(&mut self, written: bool)
        ensures
            final(self)@ == if written {
                old(self)@.info("👍 Local data saved"@)
            } else {
                old(self)@.error("Cannot save local data"@)
            },
    {
        if written {
            self.send_info_toast("👍 Local data saved", None);
        } else {
            self.send_error_toast("Cannot save local data", None);
        }
    }

    /// Looks for the file in the selected line, and tells the user where it is not there.
    fn look_for_file(&mut self, files: &Option<Vec<String>>, no_such_file: &str) -> (file: Option<
        String,
    >)
        ensures
            text_option(file) == file_in_line(files_view(*files), old(self)@.line()),
            files matches Some(list) ==> {
                let line = match old(self).load_save_state {
                    Some(chosen) => chosen,
                    None => 0,
                };
                if line < list@.len() {
                    file matches Some(f) && f@ == list@[line as int]@
                } else {
                    file is None
                }
            },
            files is None ==> file is None,
            final(self)@ == file_looked_for(old(self)@, files_view(*files), no_such_file@),
    {
        let line: usize = self.line_or_first();
        if files.is_none() {
            self.send_error_toast("Could not get local save files", None);
        }
        let file = find_file(files, line);
        if file.is_none() {
            self.send_error_toast(no_such_file, None);
        }
        file
    }

    /// Finds the file that is to be loaded. `files` are the files in the save directory, or nothing
    /// where it could not be read.
    pub fn begin_local_load(&mut self, files: &Option<Vec<String>>) -> (file: Option<String>)
        ensures
            text_option(file) == file_in_line(files_view(*files), old(self)@.line()),
            files matches Some(list) ==> {
                let line = match old(self).load_save_state {
                    Some(chosen) => chosen,
                    None => 0,
                };
                if line < list@.len() {
                    file matches Some(f) && f@ == list@[line as int]@
                } else {
                    file is None
                }
            },
            files is None ==> file is None,
            final(self)@ == file_looked_for(
                old(self)@,
                files_view(*files),
                "Cannot load save file: No such file"@,
            ),
    {
        self.look_for_file(files, "Cannot load save file: No such file")
    }

    /// Ends to load a local save. `boards` are the boards in the file, if it could be read.
    pub fn finish_local_load(&mut self, name: &String, boards: Option<Vec<Board>>)
        ensures
            boards matches Some(list) ==> boards_view(final(self).boards@) == boards_view(list@),
            boards is None ==> boards_view(final(self).boards@) == boards_view(old(self).boards@),
            final(self)@ == local_save_loaded(old(self)@, name@, boards_option(boards)),
            boards is Some ==> quoted_plainly(name@),
    {
        match boards {
            Some(list) => {
                self.set_boards(list);
                let mut message = "👍 Save file ".to_owned();
                let quoted = quote(name);
                message.append(quoted.as_str());
                message.append(" loaded");
                self.send_info_toast(message.as_str(), None);
            },
            None => {
                self.send_error_toast("Cannot load save file", None);
            },
        }
        self.dispatch(IoEvent::ResetVisibleBoardsandCards);
        self.ui_mode = self.config.default_view;
    }

    /// Finds the file that is to be deleted. `files` are the files in the save directory, or nothing
    /// where it could not be read.
    pub fn begin_local_delete(&mut self, files: &Option<Vec<String>>) -> (file: Option<String>)
        ensures
            text_option(file) == match delete_refusal(old(self)@, files_view(*files)) {
                Some(_) => None,
                None => file_in_line(files_view(*files), old(self)@.line()),
            },
            file is Some <==> delete_refusal(old(self)@, files_view(*files)) is None,
            files matches Some(list) ==> (old(self).load_save_state matches Some(line) ==> if line < list@.len() {
                file matches Some(f) && f@ == list@[line as int]@
            } else {
                file is None
            }),
            files is None ==> file is None,
            old(self).load_save_state is None ==> file is None,
            final(self)@ == match delete_refusal(old(self)@, files_view(*files)) {
                Some(reason) => old(self)@.error(reason),
                None => old(self)@,
            },
    {
        if files.is_none() {
            self.send_error_toast("Cannot delete save file: no save files found", None);
            return None;
        }
        let line: usize = match self.load_save_state {
            None => {
                self.send_error_toast("Cannot delete save file: no save file selected", None);
                return None;
            },
            Some(line) => line,
        };
        let file = find_file(files, line);
        if file.is_none() {
            self.send_error_toast("Cannot delete save file: Something went wrong", None);
        }
        file
    }

    /// Goes on after the deletion of a file. The files are to be listed anew where this says so.
    pub fn local_file_deleted(&mut self, deletion: Deletion) -> (go_on: bool)
        ensures
            go_on == (deletion == Deletion::Done),
            final(self)@ == file_deleted(old(self)@, deletion),
    {
        match deletion {
            Deletion::NotFound => {
                self.send_error_toast("Cannot delete save file: file not found", None);
                false
            },
            Deletion::Failed => {
                self.send_error_toast("Cannot delete save file: Something went wrong", None);
                self.load_save_state = None;
                false
            },
            Deletion::Done => {
                self.send_info_toast("👍 Save file deleted", None);
                true
            },
        }
    }

    /// Ends to delete a file. `files` are the files in the save directory, or nothing where it could
    /// not be read.
    pub fn finish_local_delete(&mut self, files: &Option<Vec<String>>)
        ensures
            final(self)@ == (AppView {
                selected: line_kept(
                    old(self)@.selected,
                    match files_view(*files) {
                        Some(list) => Some(list.len()),
                        None => None,
                    },
                ),
                ..old(self)@
            }),
    {
        match files {
            None => {
                self.load_save_state = None;
            },
            Some(list) => {
                if let Some(line) = self.load_save_state {
                    if line >= list.len() {
                        if list.len() == 0 {
                            self.load_save_state = None;
                        } else {
                            self.load_save_state = Some(list.len() - 1);
                        }
                    }
                }
            },
        }
    }

    /// Finds the file that is to be previewed. Nothing happens where no line is selected. `files` are
    /// the files in the save directory, or nothing where it could not be read.
    pub fn begin_local_preview(&mut self, files: &Option<Vec<String>>) -> (file: Option<String>)
        ensures
            files matches Some(list) ==> (old(self).load_save_state matches Some(line) ==> if line < list@.len() {
                file matches Some(f) && f@ == list@[line as int]@
            } else {
                file is None
            }),
            files is None ==> file is None,
            old(self).load_save_state is None ==> file is None,
            text_option(file) == match old(self)@.selected {
                None => None,
                Some(line) => file_in_line(files_view(*files), line),
            },
            final(self)@ == if old(self)@.selected is None {
                old(self)@
            } else {
                file_looked_for(
                    AppView { preview_boards: None, ..old(self)@ },
                    files_view(*files),
                    "Cannot load preview: No such file"@,
                )
            },
    {
        if self.load_save_state.is_none() {
            return None;
        }
        self.preview_boards_and_cards = None;
        self.look_for_file(files, "Cannot load preview: No such file")
    }

    /// Ends to preview a local save. `boards` are the boards in the file, if it could be read.
    pub fn finish_local_preview(&mut self, name: String, boards: Option<Vec<Board>>)
        ensures
            boards matches Some(list) ==> (final(self).preview_boards_and_cards matches Some(shown)
                && boards_view(shown@) == boards_view(list@)),
            final(self)@ == local_preview_shown(old(self)@, name@, boards_option(boards)),
    {
        match boards {
            None => {
                self.send_error_toast("Error loading preview", None);
            },
            Some(list) => {
                self.preview_visible_boards_and_cards = visible_boards_and_cards(
                    &list,
                    self.config.no_of_boards_to_show,
                    self.config.no_of_cards_to_show,
                );
                self.preview_boards_and_cards = Some(list);
                self.preview_file_name = Some(name);
            },
        }
    }
}

/// Boards are to be saved exactly where they are not those of the latest save. Boards that differ in
/// anything, a number, a text or a card, are to be saved, and so are boards without a save that could
/// be read.
pub proof fn changed_boards_need_a_save(app: App, name: String, boards: Vec<Board>)
    ensures
        unsaved(app@, LastSave::Loaded(name, boards)) <==> boards_view(app.boards@) != boards_view(
            boards@,
        ),
        unsaved(app@, LastSave::Missing),
        unsaved(app@, LastSave::Unreadable),
        app.boards@.len() != boards@.len() ==> unsaved(app@, LastSave::Loaded(name, boards)),
        forall|i: int, j: int|
            #![trigger app.boards@[i].cards@[j], boards@[i].cards@[j]]
            0 <= i < app.boards@.len() && i < boards@.len() && 0 <= j < app.boards@[i].cards@.len()
                && j < boards@[i].cards@.len() && app.boards@[i].cards@[j].details@
                != boards@[i].cards@[j].details@ ==> unsaved(app@, LastSave::Loaded(name, boards)),
        forall|i: int|
            0 <= i < app.boards@.len() && i < boards@.len() && (#[trigger] app.boards@[i]).details@
                != boards@[i].details@ ==> unsaved(app@, LastSave::Loaded(name, boards)),
{
    boards_are_the_same_where_everything_is(app.boards@, boards@);
}

/// Every board of a save is loaded and every board is previewed, whatever the limits of what is shown,
/// and a save that cannot be read changes no board.
pub proof fn local_saves_are_loaded_whole(app: AppView, name: Seq<char>, boards: Seq<BoardView>)
    ensures
        local_save_loaded(app, name, Some(boards)).boards == boards,
        local_save_loaded(app, name, None).boards == app.boards,
        local_save_loaded(app, name, Some(boards)).ui_mode == app.config.default_view,
        local_save_loaded(app, name, None).ui_mode == app.config.default_view,
        local_save_loaded(app, name, Some(boards)).dispatched == app.dispatched.push(
            IoEvent::ResetVisibleBoardsandCards,
        ),
        local_save_loaded(app, name, Some(boards)).toasts.last().message == "👍 Save file "@
            + debug_quoted(name) + " loaded"@,
        local_save_loaded(app, name, Some(boards)).preview_boards == app.preview_boards,
        local_preview_shown(app, name, Some(boards)).preview_boards == Some(boards),
        local_preview_shown(app, name, Some(boards)).preview_file_name == Some(name),
        local_preview_shown(app, name, Some(boards)).boards == app.boards,
        local_preview_shown(app, name, Some(boards)).toasts == app.toasts,
        local_preview_shown(app, name, None).preview_boards == app.preview_boards,
        local_preview_shown(app, name, None).preview_file_name == app.preview_file_name,
{
}

/// A preview of a save shows what is shown of its boards once it is loaded.
pub proof fn local_preview_shows_what_loading_brings(
    app: AppView,
    name: Seq<char>,
    boards: Seq<BoardView>,
)
    requires
        app.filtered_boards.len() == 0,
    ensures
        local_preview_shown(app, name, Some(boards)).preview_visible == refreshed(
            local_save_loaded(app, name, Some(boards)),
        ).visible,
{
}

/// The file in a line is the one that stands there in the list, and it is the same whether it is loaded
/// or deleted.
pub proof fn the_file_of_the_line_is_taken(list: Seq<Seq<char>>, line: usize)
    ensures
        line < list.len() ==> file_in_line(Some(list), line) == Some(list[line as int]),
        line >= list.len() ==> file_in_line(Some(list), line) is None,
        file_in_line(None, line) is None,
{
}

/// The program starts with every board of the latest save where the user wants it, and with none
/// otherwise.
pub proof fn the_latest_save_is_taken_whole(app: AppView, name: String, boards: Vec<Board>)
    ensures
        app.config.always_load_last_save ==> first_boards(app, LastSave::Loaded(name, boards))
            == boards_view(boards@),
        !app.config.always_load_last_save ==> first_boards(app, LastSave::Loaded(name, boards)).len()
            == 0,
        first_boards(app, LastSave::Missing).len() == 0,
        first_boards(app, LastSave::Unreadable).len() == 0,
        app.config.always_load_last_save ==> boards_prepared(
            app,
            LastSave::Loaded(name, boards),
        ).toasts.last().message == "👍 Local data loaded from "@ + debug_quoted(name@),
        boards_prepared(app, LastSave::Loaded(name, boards)).boards == app.boards,
{
}

/// Where the last line was deleted, the line before it is selected.
pub proof fn the_last_line_is_selected_instead(selected: usize, count: nat)
    requires
        0 < count <= selected,
    ensures
        line_kept(Some(selected), Some(count)) == Some((count - 1) as usize),
        line_kept(Some(selected), None) is None,
{
}

/// A deletion touches nothing but the selection and what the user is told, and the selection only where
/// it failed.
pub proof fn deletions_keep_the_rest(app: AppView, deletion: Deletion)
    ensures
        ({
            let after = file_deleted(app, deletion);
            &&& after == (AppView { toasts: after.toasts, selected: after.selected, ..app })
            &&& after.toasts.len() == app.toasts.len() + 1
            &&& deletion == Deletion::Failed ==> after.selected is None
            &&& deletion != Deletion::Failed ==> after.selected == app.selected
        }),
{
}

/// A file is deleted exactly where the files are known and the selected line is one of them.
pub proof fn only_selected_files_are_deleted(app: AppView, files: Option<Seq<Seq<char>>>)
    ensures
        delete_refusal(app, files) is None <==> {
            &&& files is Some
            &&& app.selected is Some
            &&& app.selected->0 < files->0.len()
        },
{
}

/// Looking for a file only tells the user something, and nothing where the file is there.
pub proof fn looking_for_files_only_tells(
    app: AppView,
    files: Option<Seq<Seq<char>>>,
    no_such_file: Seq<char>,
)
    ensures
        file_looked_for(app, files, no_such_file).only_told(app),
        files is Some && app.line() < files->0.len() ==> file_looked_for(app, files, no_such_file)
            == app,
        files is Some && app.line() >= files->0.len() ==> file_looked_for(app, files, no_such_file)
            == app.error(no_such_file),
{
}

} // verus!
