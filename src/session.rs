//! The session: open tabs, the directory snapshot, the focused pane and the
//! input mode, and the handlers that move between them.
//!
//! The session performs no I/O. A handler that needs the file system returns a
//! [`Request`]; the caller performs it and hands the outcome back to the
//! matching `complete_*` method, which may return a further request.

use vstd::prelude::*;
use crate::command::{parse_command, Command};
use crate::directory::{DirectoryView, Entry};
use crate::input::{Event, Key, KeyInput, Modifiers, MouseAction, MouseInput};
use crate::page::Page;
use crate::paths::{is_within, join_path, parent_path, renamed_path};
use crate::search::{all_matches, find_matches, positions};
use crate::steps::{
    active_text,
    change_step,
    cleared,
    comma_joined,
    command_step,
    confirm_step,
    decimal_width,
    editor_step,
    entry_opened,
    failures,
    find_step,
    in_dialog,
    is_open_at,
    key_step,
    lemma_tab_start_grows,
    listing_step,
    mouse_step,
    name_prompt_step,
    on_tab,
    pair_views,
    pane_step,
    read_step,
    refreshing,
    repointed,
    save_list,
    save_prompt_step,
    save_started,
    scrolled,
    tab_closed,
    tab_label_len,
    tab_start,
    tabs_outside,
    tree_step,
    write_all_step,
};
use crate::text::{pop_char, push_char, views};

verus! {

/// The input modes; exactly one is active at a time.
#[derive(PartialEq, Eq, Structural, Clone, Copy, Debug)]
pub enum Mode {
    Command,
    Edit,
    FileTree,
    PromptSave,
    PromptSaveAndQuit,
    Find,
    ConfirmDelete,
    PromptNewFile,
    PromptNewDirectory,
    PromptRename,
}

/// The pane that takes keyboard input.
#[derive(PartialEq, Eq, Structural, Clone, Copy, Debug)]
pub enum ActivePane {
    FileTree,
    Editor,
}

/// File system work that the session asks its caller to perform.
#[derive(Debug, PartialEq, Eq)]
pub enum Request {
    /// Nothing to do.
    Nothing,
    /// List the directory at the path; answer with `complete_listing`.
    ListDirectory(String),
    /// Read the file at the path as text; answer with `complete_read`.
    ReadFile(String),
    /// Write the text (second) to the file at the path (first); answer with `complete_change`.
    WriteFile(String, String),
    /// Write each text to its path, in order; answer with `complete_write_all`.
    WriteFiles(Vec<(String, String)>),
    /// Remove the file, or the directory and all it holds; answer with `complete_change`.
    Remove(String),
    /// Create the directory; answer with `complete_change`.
    CreateDirectory(String),
    /// Rename the first path to the second; answer with `complete_change`.
    Rename(String, String),
}

/// What the session awaits the outcome of.
#[derive(Debug, PartialEq, Eq)]
pub enum Pending {
    Idle,
    /// A listing of the parent directory.
    ParentListing(String),
    /// A listing of a directory chosen in the tree.
    ChildListing(String),
    /// A fresh listing of the browsed directory.
    Refresh(String),
    /// The text of a file being opened in a new tab.
    OpenFile(String),
    /// The text of the active tab's file, to revert to.
    Revert(String),
    /// A save of the active tab; the tab closes afterwards if `close_tab`.
    Save { path: String, close_tab: bool },
    /// A save of the active tab under a name typed at the prompt.
    SaveAs { path: String, quit: bool },
    /// Saves of every tab with a path, one per path held here.
    SaveAll(Vec<String>),
    Delete(String),
    CreateFile(String),
    CreateDirectory(String),
    Rename(String, String),
}

/// The whole state of an editing session.
pub struct App {
    pub tabs: Vec<Page>,
    pub active_tab_index: usize,
    pub directory_view: DirectoryView,
    pub active_pane: ActivePane,
    pub mode: Mode,
    /// Text typed at the command line or at a prompt.
    pub command_buffer: String,
    /// A message for the status line; cleared by every event.
    pub status_message: String,
    pub should_quit: bool,
    pub find_query: String,
    pub find_matches: Vec<(usize, usize)>,
    pub current_match_index: usize,
    /// The path that a delete awaits confirmation for.
    pub path_to_delete: Option<String>,
    /// The path that a rename awaits a new name for.
    pub path_to_rename: Option<String>,
    /// Whether `n` moves between matches rather than extending the query.
    pub find_navigation_active: bool,
    pub pending: Pending,
}

impl App {
    /// The active tab index lies within the tabs (or is 0 when there are none),
    /// the directory selection is in range, and a pending delete or rename
    /// path is held exactly while its dialog is open.
    pub open spec fn wf(&self) -> bool {
        &&& self.directory_view.wf()
        &&& if self.tabs@.len() == 0 {
            self.active_tab_index == 0
        } else {
            self.active_tab_index < self.tabs@.len()
        }
        &&& (self.path_to_delete is Some <==> self.mode == Mode::ConfirmDelete)
        &&& (self.path_to_rename is Some <==> self.mode == Mode::PromptRename)
        &&& (self.find_matches@.len() > 0 ==> self.current_match_index < self.find_matches@.len())
    }

    /// `self` is `o` with only the active tab's cursor moved to the current
    /// match, if there is one.
    pub open spec fn jumped(&self, o: &App) -> bool {
        &&& self.tabs@.len() == o.tabs@.len()
        &&& self.active_tab_index == o.active_tab_index
        &&& forall|i: int| 0 <= i < self.tabs@.len() && i != self.active_tab_index ==> self.tabs@[i] == o.tabs@[i]
        &&& if o.current_match_index < o.find_matches@.len() && o.active() is Some {
            let m = o.find_matches@[o.current_match_index as int];
            Page::moved_to(o.active()->0, self.active()->0, m.0 as int, m.1 as int)
        } else {
            self.tabs@ == o.tabs@
        }
    }

    /// `self` is `o` with only the active tab changed, as `f` relates the
    /// old page to the new; with no tab open nothing changes.
    pub open spec fn tab_edited(&self, o: &App, f: spec_fn(Page, Page) -> bool) -> bool {
        &&& self.tabs@.len() == o.tabs@.len()
        &&& self.active_tab_index == o.active_tab_index
        &&& forall|i: int| 0 <= i < self.tabs@.len() && i != self.active_tab_index ==> self.tabs@[i] == o.tabs@[i]
        &&& if o.active() is Some {
            f(o.active()->0, self.active()->0)
        } else {
            self.tabs@ == o.tabs@
        }
    }

    /// `self` holds the matches of its query in `o`'s active document, and
    /// the cursor is at the first of them if there is one.
    pub open spec fn searched(&self, o: &App) -> bool {
        &&& positions(self.find_matches@) == o.matches_of(self.find_query@)
        &&& self.find_matches@.len() > 0 ==> self.current_match_index == 0 && self.jumped(
            &App { current_match_index: 0, find_matches: self.find_matches, ..*o },
        )
        &&& self.find_matches@.len() == 0 ==> self.tabs == o.tabs
    }

    /// The matches that the query has in the active tab's document.
    pub open spec fn matches_of(&self, query: Seq<char>) -> Seq<(int, int)> {
        if query.len() > 0 && self.active() is Some {
            all_matches(self.active()->0.lines(), query)
        } else {
            Seq::empty()
        }
    }

    /// All but the tabs, the search state and the status are those of `o`.
    pub open spec fn same_setting(&self, o: &App) -> bool {
        &&& self.directory_view == o.directory_view
        &&& self.active_pane == o.active_pane
        &&& self.command_buffer == o.command_buffer
        &&& self.should_quit == o.should_quit
        &&& self.path_to_delete == o.path_to_delete
        &&& self.path_to_rename == o.path_to_rename
        &&& self.pending == o.pending
    }

    /// The active tab's document, if any tab is open.
    pub open spec fn active(&self) -> Option<Page> {
        if self.active_tab_index < self.tabs@.len() {
            Some(self.tabs@[self.active_tab_index as int])
        } else {
            None
        }
    }

    /// A session browsing `directory_view`, with `initial` open in the
    /// editor if given, else with no tabs and the directory tree focused.
    pub fn new(directory_view: DirectoryView, initial: Option<Page>) -> (app: App)
        requires
            directory_view.wf(),
        ensures
            app.wf(),
            app.directory_view == directory_view,
            match initial {
                Some(p) => app.tabs@ == seq![p] && app.active_pane == ActivePane::Editor
                    && app.mode == Mode::Edit,
                None => app.tabs@.len() == 0 && app.active_pane == ActivePane::FileTree
                    && app.mode == Mode::FileTree,
            },
            app.active_tab_index == 0,
            app.command_buffer@.len() == 0,
            app.status_message@.len() == 0,
            !app.should_quit,
            app.find_query@.len() == 0,
            app.find_matches@.len() == 0,
            !app.find_navigation_active,
            app.pending is Idle,
    {
        let mut tabs: Vec<Page> = Vec::new();
        let mut active_pane = ActivePane::FileTree;
        let mut mode = Mode::FileTree;
        if let Some(p) = initial {
            tabs.push(p);
            active_pane = ActivePane::Editor;
            mode = Mode::Edit;
        }
        App {
            tabs,
            active_tab_index: 0,
            directory_view,
            active_pane,
            mode,
            command_buffer: String::new(),
            status_message: String::new(),
            should_quit: false,
            find_query: String::new(),
            find_matches: Vec::new(),
            current_match_index: 0,
            path_to_delete: None,
            path_to_rename: None,
            find_navigation_active: false,
            pending: Pending::Idle,
        }
    }

    /// Moves the active tab's cursor to the current match, if there is one.
    fn jump_to_match(&mut self)
        requires
            old(self).wf(),
        ensures
            final(self).wf(),
            final(self).jumped(old(self)),
            final(self).mode == old(self).mode,
            final(self).same_setting(old(self)),
            final(self).find_query == old(self).find_query,
            final(self).find_matches == old(self).find_matches,
            final(self).current_match_index == old(self).current_match_index,
            final(self).find_navigation_active == old(self).find_navigation_active,
            final(self).status_message == old(self).status_message,
    {
        if self.current_match_index < self.find_matches.len() && self.active_tab_index < self.tabs.len() {
            let (row, col) = self.find_matches[self.current_match_index];
            let i = self.active_tab_index;
            self.tabs[i].move_cursor_to(row, col);
        }
    }

    /// Finds the query in the active tab's document and jumps to the first match.
    fn update_search_matches(&mut self)
        requires
            old(self).wf(),
        ensures
            final(self).wf(),
            positions(final(self).find_matches@) == old(self).matches_of(old(self).find_query@),
            final(self).find_matches@.len() > 0 ==> final(self).current_match_index == 0,
            final(self).find_matches@.len() == 0 ==> final(self).tabs == old(self).tabs,
            final(self).find_matches@.len() > 0 ==> final(self).jumped(&App { current_match_index: 0, find_matches: final(self).find_matches, ..*old(self) }),
            final(self).mode == old(self).mode,
            final(self).same_setting(old(self)),
            final(self).find_query == old(self).find_query,
            final(self).find_navigation_active == old(self).find_navigation_active,
            final(self).status_message == old(self).status_message,
    {
        self.find_matches = Vec::new();
        if self.find_query.as_str().is_empty() {
            assert(positions(self.find_matches@) =~= Seq::<(int, int)>::empty());
            return;
        }
        if self.active_tab_index < self.tabs.len() {
            let lines = self.tabs[self.active_tab_index].get_all_lines();
            self.find_matches = find_matches(&lines, self.find_query.as_str());
        } else {
            assert(positions(self.find_matches@) =~= Seq::<(int, int)>::empty());
        }
        if self.find_matches.len() > 0 {
            self.current_match_index = 0;
            self.jump_to_match();
        }
    }

    /// A key in `Find` mode. Typing extends the query and searches again;
    /// Enter starts moving between matches, and then `n` goes to the next one
    /// and shift-`n` (or `N`) to the one before, both wrapping round; Escape
    /// leaves the search.
    fn handle_find_event(&mut self, input: KeyInput)
        requires
            old(self).wf(),
            old(self).mode == Mode::Find,
        ensures
            final(self).wf(),
            final(self).same_setting(old(self)),
            final(self).status_message == old(self).status_message,
            find_step(*old(self), *final(self), input),
    {
        let nav = self.find_navigation_active;
        match input.key {
            Key::Esc => {
                self.mode = Mode::Command;
                self.find_query = String::new();
                self.find_matches = Vec::new();
                self.find_navigation_active = false;
            },
            Key::Enter => {
                if !self.find_query.as_str().is_empty() {
                    self.find_navigation_active = true;
                    self.jump_to_match();
                }
            },
            Key::Char(c) => {
                if nav && c == 'n' && input.modifiers == Modifiers::Plain {
                    let n = self.find_matches.len();
                    if n > 0 {
                        self.current_match_index = if self.current_match_index + 1 == n {
                            0
                        } else {
                            self.current_match_index + 1
                        };
                        self.jump_to_match();
                    }
                } else if nav && (c == 'n' || c == 'N') && input.modifiers == Modifiers::Shift {
                    let n = self.find_matches.len();
                    if n > 0 {
                        self.current_match_index = if self.current_match_index == 0 {
                            n - 1
                        } else {
                            self.current_match_index - 1
                        };
                        self.jump_to_match();
                    }
                } else {
                    self.find_navigation_active = false;
                    push_char(&mut self.find_query, c);
                    self.update_search_matches();
                }
            },
            Key::Backspace => {
                if !self.find_query.as_str().is_empty() {
                    self.find_navigation_active = false;
                    pop_char(&mut self.find_query);
                    self.update_search_matches();
                }
            },
            _ => {},
        }
    }

    /// Closes the active tab, if there is one, and clamps the active index.
    fn close_active_tab(&mut self)
        requires
            old(self).wf(),
        ensures
            final(self).wf(),
            tab_closed(*old(self), *final(self)),
            *final(self) == (App { tabs: final(self).tabs, active_tab_index: final(self).active_tab_index, ..*old(self) }),
    {
        if self.active_tab_index < self.tabs.len() {
            self.tabs.remove(self.active_tab_index);
        }
        if self.tabs.len() == 0 {
            self.active_tab_index = 0;
        } else if self.active_tab_index >= self.tabs.len() {
            self.active_tab_index = self.tabs.len() - 1;
        }
    }

    /// The saved text of the active tab, or an empty text with no tab open.
    fn active_contents(&self) -> (r: String)
        ensures
            r@ == active_text(*self),
    {
        if self.active_tab_index < self.tabs.len() {
            self.tabs[self.active_tab_index].contents()
        } else {
            String::new()
        }
    }

    /// Starts saving the active tab to `arg`, or else to its own path; with
    /// neither, asks for a name.
    fn save_active_file(&mut self, arg: Option<String>, close_tab: bool) -> (r: Request)
        requires
            old(self).wf(),
            old(self).mode == Mode::Command,
        ensures
            final(self).wf(),
            save_started(*old(self), *final(self), match arg { Some(a) => Some(a@), None => None }, close_tab, r),
            *final(self) == (App { mode: final(self).mode, pending: final(self).pending, command_buffer: final(self).command_buffer, ..*old(self) }),
            final(self).mode == Mode::PromptSave ==> final(self).command_buffer@.len() == 0,
            final(self).mode != Mode::PromptSave ==> final(self).command_buffer == old(self).command_buffer,
    {
        let own = if self.active_tab_index < self.tabs.len() {
            match &self.tabs[self.active_tab_index].file_path {
                Some(f) => Some(f.clone()),
                None => None,
            }
        } else {
            None
        };
        let target = match arg {
            Some(a) => Some(a),
            None => own,
        };
        match target {
            Some(path) => {
                let text = self.active_contents();
                self.pending = Pending::Save { path: path.clone(), close_tab };
                Request::WriteFile(path, text)
            },
            None => {
                self.mode = Mode::PromptSave;
                self.command_buffer = String::new();
                Request::Nothing
            },
        }
    }

    /// The path and saved text of each tab that has a path.
    fn save_all_list(&self) -> (r: (Vec<(String, String)>, Vec<String>))
        ensures
            pair_views(r.0@) == save_list(self.tabs@),
            views(r.1@) == save_list(self.tabs@).map_values(|e: (Seq<char>, Seq<char>)| e.0),
    {
        let mut files: Vec<(String, String)> = Vec::new();
        let mut paths: Vec<String> = Vec::new();
        let mut i: usize = 0;
        while i < self.tabs.len()
            invariant
                i <= self.tabs@.len(),
                pair_views(files@) == save_list(self.tabs@.take(i as int)),
                views(paths@) == save_list(self.tabs@.take(i as int)).map_values(|e: (Seq<char>, Seq<char>)| e.0),
            decreases self.tabs@.len() - i,
        {
            let ghost t = self.tabs@.take(i + 1);
            assert(t.drop_last() =~= self.tabs@.take(i as int));
            let ghost pf = files@;
            let ghost pp = paths@;
            match &self.tabs[i].file_path {
                Some(f) => {
                    let text = self.tabs[i].contents();
                    files.push((f.clone(), text));
                    paths.push(f.clone());
                    assert(pair_views(files@) =~= pair_views(pf).push((f@, text@)));
                    assert(views(paths@) =~= views(pp).push(f@));
                    assert(save_list(t) =~= save_list(self.tabs@.take(i as int)).push((f@, text@)));
                    assert(save_list(t).map_values(|e: (Seq<char>, Seq<char>)| e.0) =~= save_list(
                        self.tabs@.take(i as int),
                    ).map_values(|e: (Seq<char>, Seq<char>)| e.0).push(f@));
                },
                None => {
                    assert(save_list(t) =~= save_list(self.tabs@.take(i as int)));
                },
            }
            i += 1;
        }
        assert(self.tabs@.take(i as int) =~= self.tabs@);
        (files, paths)
    }

    /// Runs the command typed at the command line.
    fn execute_command(&mut self) -> (r: Request)
        requires
            old(self).wf(),
            old(self).mode == Mode::Command,
        ensures
            final(self).wf(),
            command_step(*old(self), *final(self), r),
    {
        let line = self.command_buffer.clone();
        let r = match parse_command(line.as_str()) {
            Command::Find => {
                self.mode = Mode::Find;
                self.find_query = String::new();
                Request::Nothing
            },
            Command::Quit => {
                self.close_active_tab();
                Request::Nothing
            },
            Command::Exit => {
                self.should_quit = true;
                Request::Nothing
            },
            Command::SaveAllAndExit => {
                let (files, paths) = self.save_all_list();
                self.pending = Pending::SaveAll(paths);
                Request::WriteFiles(files)
            },
            Command::Help => {
                self.status_message = String::from_str(
                    "Help | Modes: Esc (Cmd/Edit), Tab (Dir) | Cmds: f, q, w, wq, x, wx, r | Dir Cmds: nf, nd, rn, d",
                );
                Request::Nothing
            },
            Command::Revert => {
                let own = if self.active_tab_index < self.tabs.len() {
                    match &self.tabs[self.active_tab_index].file_path {
                        Some(f) => Some(f.clone()),
                        None => None,
                    }
                } else {
                    None
                };
                match own {
                    Some(path) => {
                        self.pending = Pending::Revert(path.clone());
                        Request::ReadFile(path)
                    },
                    None => {
                        self.status_message = String::from_str("No file to revert from.");
                        Request::Nothing
                    },
                }
            },
            Command::Write(arg) => self.save_active_file(arg, false),
            Command::WriteAndClose(arg) => self.save_active_file(arg, true),
            Command::Unknown => {
                let mut m = String::from_str("Unknown command: ");
                m.append(line.as_str());
                self.status_message = m;
                Request::Nothing
            },
        };
        self.command_buffer = String::new();
        r
    }

    /// A key at the save prompt.
    fn handle_prompt_event(&mut self, key: Key) -> (r: Request)
        requires
            old(self).wf(),
            old(self).mode == Mode::PromptSave || old(self).mode == Mode::PromptSaveAndQuit,
        ensures
            final(self).wf(),
            save_prompt_step(*old(self), *final(self), key, r),
    {
        match key {
            Key::Esc => {
                self.status_message = String::from_str("Save cancelled.");
                self.command_buffer = String::new();
                self.mode = Mode::Command;
                Request::Nothing
            },
            Key::Char(c) => {
                push_char(&mut self.command_buffer, c);
                Request::Nothing
            },
            Key::Backspace => {
                pop_char(&mut self.command_buffer);
                Request::Nothing
            },
            Key::Enter => {
                if self.command_buffer.as_str().is_empty() {
                    return Request::Nothing;
                }
                let path = join_path(self.directory_view.path.as_str(), self.command_buffer.as_str());
                let quit = self.mode == Mode::PromptSaveAndQuit;
                let text = self.active_contents();
                self.pending = Pending::SaveAs { path: path.clone(), quit };
                Request::WriteFile(path, text)
            },
            _ => Request::Nothing,
        }
    }

    /// A key in the editor pane.
    fn handle_editor_event(&mut self, input: KeyInput) -> (r: Request)
        requires
            old(self).wf(),
            old(self).mode != Mode::ConfirmDelete,
            old(self).mode != Mode::PromptRename,
        ensures
            final(self).wf(),
            old(self).mode == Mode::Find ==> r is Nothing && find_step(*old(self), *final(self), input)
                && final(self).same_setting(old(self)) && final(self).status_message == old(
                self,
            ).status_message,
            old(self).mode == Mode::PromptSave || old(self).mode == Mode::PromptSaveAndQuit
                ==> save_prompt_step(*old(self), *final(self), input.key, r),
            old(self).mode != Mode::Find && old(self).mode != Mode::PromptSave && old(self).mode
                != Mode::PromptSaveAndQuit ==> editor_step(*old(self), *final(self), input.key, r),
    {
        if self.mode == Mode::Find {
            self.handle_find_event(input);
            return Request::Nothing;
        }
        if self.mode == Mode::PromptSave || self.mode == Mode::PromptSaveAndQuit {
            return self.handle_prompt_event(input.key);
        }
        let has_tab = self.active_tab_index < self.tabs.len();
        let i = self.active_tab_index;
        match input.key {
            Key::Esc => {
                if self.mode == Mode::Edit {
                    self.mode = Mode::Command;
                } else if self.mode == Mode::Command && self.tabs.len() > 0 {
                    self.mode = Mode::Edit;
                    self.command_buffer = String::new();
                }
                Request::Nothing
            },
            Key::Char(c) => {
                if self.mode == Mode::Edit {
                    if has_tab {
                        self.tabs[i].current.insert(c);
                    }
                } else if self.mode == Mode::Command {
                    push_char(&mut self.command_buffer, c);
                }
                Request::Nothing
            },
            Key::Backspace => {
                if self.mode == Mode::Edit {
                    if has_tab {
                        self.tabs[i].delete();
                    }
                } else if self.mode == Mode::Command {
                    pop_char(&mut self.command_buffer);
                }
                Request::Nothing
            },
            Key::Enter => {
                if self.mode == Mode::Edit {
                    if has_tab {
                        self.tabs[i].insert_newline();
                    }
                    Request::Nothing
                } else if self.mode == Mode::Command {
                    self.execute_command()
                } else {
                    Request::Nothing
                }
            },
            Key::Left => {
                if self.mode == Mode::Command {
                    if self.tabs.len() > 1 {
                        self.active_tab_index = if self.active_tab_index == 0 {
                            self.tabs.len() - 1
                        } else {
                            self.active_tab_index - 1
                        };
                    }
                } else if self.mode == Mode::Edit {
                    if has_tab {
                        self.tabs[i].current.move_left();
                    }
                }
                Request::Nothing
            },
            Key::Right => {
                if self.mode == Mode::Command {
                    if self.tabs.len() > 1 {
                        self.active_tab_index = if self.active_tab_index + 1 == self.tabs.len() {
                            0
                        } else {
                            self.active_tab_index + 1
                        };
                    }
                } else if self.mode == Mode::Edit {
                    if has_tab {
                        self.tabs[i].current.move_right();
                    }
                }
                Request::Nothing
            },
            Key::Up => {
                if self.mode == Mode::Edit && has_tab {
                    self.tabs[i].move_up();
                }
                Request::Nothing
            },
            Key::Down => {
                if self.mode == Mode::Edit && has_tab {
                    self.tabs[i].move_down();
                }
                Request::Nothing
            },
            Key::Tab => {
                self.active_pane = ActivePane::FileTree;
                self.mode = Mode::FileTree;
                self.command_buffer = String::new();
                Request::Nothing
            },
            Key::Other => Request::Nothing,
        }
    }

    /// Opens the selected entry: browses into a directory, or shows a file
    /// in its tab, opening one if needed.
    fn open_selected_entry(&mut self) -> (r: Request)
        requires
            old(self).wf(),
            old(self).mode != Mode::ConfirmDelete,
            old(self).mode != Mode::PromptRename,
        ensures
            final(self).wf(),
            entry_opened(*old(self), *final(self), r),
    {
        let sel = self.directory_view.selected_index;
        if sel >= self.directory_view.entries.len() {
            return Request::Nothing;
        }
        let path = self.directory_view.entries[sel].path.clone();
        if self.directory_view.entries[sel].is_dir {
            self.pending = Pending::ChildListing(path.clone());
            return Request::ListDirectory(path);
        }
        let mut k: usize = 0;
        while k < self.tabs.len()
            invariant
                *self == *old(self),
                old(self).wf(),
                old(self).mode != Mode::ConfirmDelete,
                old(self).mode != Mode::PromptRename,
                sel == old(self).directory_view.selected_index,
                sel < self.directory_view.entries@.len(),
                path == self.directory_view.entries@[sel as int].path,
                !self.directory_view.entries@[sel as int].is_dir,
                k <= self.tabs@.len(),
                forall|j: int| 0 <= j < k ==> !is_open_at(self.tabs@, j, path@),
            decreases self.tabs@.len() - k,
        {
            let found = match &self.tabs[k].file_path {
                Some(f) => crate::command::is_word(f, path.as_str()),
                None => false,
            };
            if found {
                assert(is_open_at(old(self).tabs@, k as int, path@));
                self.active_tab_index = k;
                self.active_pane = ActivePane::Editor;
                self.mode = Mode::Edit;
                return Request::Nothing;
            }
            k += 1;
        }
        self.pending = Pending::OpenFile(path.clone());
        Request::ReadFile(path)
    }

    /// A key in the directory tree.
    fn handle_file_tree_event(&mut self, key: Key) -> (r: Request)
        requires
            old(self).wf(),
            old(self).mode != Mode::ConfirmDelete,
            old(self).mode != Mode::PromptRename,
        ensures
            final(self).wf(),
            tree_step(*old(self), *final(self), key, r),
    {
        match key {
            Key::Up | Key::Char('k') => {
                self.directory_view.move_up();
                Request::Nothing
            },
            Key::Down | Key::Char('j') => {
                self.directory_view.move_down();
                Request::Nothing
            },
            Key::Left => {
                self.command_buffer = String::new();
                match parent_path(self.directory_view.path.as_str()) {
                    Some(p) => {
                        self.pending = Pending::ParentListing(p.clone());
                        Request::ListDirectory(p)
                    },
                    None => Request::Nothing,
                }
            },
            Key::Right | Key::Char('l') => {
                let r = self.open_selected_entry();
                self.command_buffer = String::new();
                r
            },
            Key::Enter => {
                if self.command_buffer.as_str().is_empty() {
                    return self.open_selected_entry();
                }
                let cmd = self.command_buffer.clone();
                self.command_buffer = String::new();
                let sel = self.directory_view.selected_index;
                let has_sel = sel < self.directory_view.entries.len();
                if crate::command::is_word(&cmd, "d") {
                    if has_sel {
                        self.path_to_delete = Some(self.directory_view.entries[sel].path.clone());
                        self.mode = Mode::ConfirmDelete;
                    }
                } else if crate::command::is_word(&cmd, "nf") {
                    self.mode = Mode::PromptNewFile;
                } else if crate::command::is_word(&cmd, "nd") {
                    self.mode = Mode::PromptNewDirectory;
                } else if crate::command::is_word(&cmd, "rn") {
                    if has_sel {
                        self.path_to_rename = Some(self.directory_view.entries[sel].path.clone());
                        self.mode = Mode::PromptRename;
                    }
                } else {
                    let mut m = String::from_str("Unknown command: ");
                    m.append(cmd.as_str());
                    self.status_message = m;
                }
                Request::Nothing
            },
            Key::Esc => {
                self.active_pane = ActivePane::Editor;
                self.mode = Mode::Command;
                self.command_buffer = String::new();
                Request::Nothing
            },
            Key::Tab => {
                self.active_pane = ActivePane::Editor;
                self.mode = if self.tabs.len() > 0 { Mode::Edit } else { Mode::Command };
                self.command_buffer = String::new();
                Request::Nothing
            },
            Key::Char(c) => {
                push_char(&mut self.command_buffer, c);
                Request::Nothing
            },
            Key::Backspace => {
                pop_char(&mut self.command_buffer);
                Request::Nothing
            },
            _ => Request::Nothing,
        }
    }

    /// A key while a delete awaits confirmation.
    fn handle_delete_confirm_event(&mut self, key: Key) -> (r: Request)
        requires
            old(self).wf(),
            old(self).mode == Mode::ConfirmDelete,
        ensures
            final(self).wf(),
            confirm_step(*old(self), *final(self), key, r),
    {
        match key {
            Key::Char('y') | Key::Char('Y') => {
                let p = match self.path_to_delete.take() {
                    Some(p) => p,
                    None => String::new(),
                };
                self.mode = Mode::FileTree;
                self.pending = Pending::Delete(p.clone());
                Request::Remove(p)
            },
            Key::Char('n') | Key::Char('N') | Key::Esc => {
                self.path_to_delete = None;
                self.status_message = String::from_str("Delete cancelled.");
                self.mode = Mode::FileTree;
                Request::Nothing
            },
            _ => Request::Nothing,
        }
    }

    /// A key at the prompt for a new file's, a new directory's or a new name.
    fn handle_prompt_input_event(&mut self, key: Key) -> (r: Request)
        requires
            old(self).wf(),
            old(self).mode == Mode::PromptNewFile || old(self).mode == Mode::PromptNewDirectory
                || old(self).mode == Mode::PromptRename,
        ensures
            final(self).wf(),
            name_prompt_step(*old(self), *final(self), key, r),
    {
        match key {
            Key::Esc => {
                self.status_message = String::from_str("Cancelled.");
                self.command_buffer = String::new();
                self.mode = Mode::FileTree;
                self.path_to_rename = None;
                Request::Nothing
            },
            Key::Char(c) => {
                push_char(&mut self.command_buffer, c);
                Request::Nothing
            },
            Key::Backspace => {
                pop_char(&mut self.command_buffer);
                Request::Nothing
            },
            Key::Enter => {
                if self.command_buffer.as_str().is_empty() {
                    return Request::Nothing;
                }
                let name = self.command_buffer.clone();
                self.command_buffer = String::new();
                let mode = self.mode;
                self.mode = Mode::FileTree;
                if mode == Mode::PromptRename {
                    let from = match self.path_to_rename.take() {
                        Some(p) => p,
                        None => String::new(),
                    };
                    let to = renamed_path(from.as_str(), name.as_str());
                    self.pending = Pending::Rename(from.clone(), to.clone());
                    Request::Rename(from, to)
                } else {
                    let path = join_path(self.directory_view.path.as_str(), name.as_str());
                    if mode == Mode::PromptNewFile {
                        self.pending = Pending::CreateFile(path.clone());
                        Request::WriteFile(path, String::new())
                    } else {
                        self.pending = Pending::CreateDirectory(path.clone());
                        Request::CreateDirectory(path)
                    }
                }
            },
            _ => Request::Nothing,
        }
    }

    /// Asks for a fresh listing of the browsed directory.
    fn refresh(&mut self) -> (r: Request)
        ensures
            refreshing(*final(self), r),
            *final(self) == (App { pending: final(self).pending, ..*old(self) }),
    {
        let cur = self.directory_view.path.clone();
        self.pending = Pending::Refresh(cur.clone());
        Request::ListDirectory(cur)
    }

    /// Takes in the listing of a directory that the session asked for, or
    /// the error that listing it gave.
    pub fn complete_listing(&mut self, listing: Result<Vec<Entry>, String>) -> (r: Request)
        requires
            old(self).wf(),
        ensures
            final(self).wf(),
            listing_step(*old(self), *final(self), listing, r),
    {
        let mut pending = Pending::Idle;
        std::mem::swap(&mut self.pending, &mut pending);
        let browsed = match &pending {
            Pending::ParentListing(p) => Some(p.clone()),
            Pending::ChildListing(p) => Some(p.clone()),
            Pending::Refresh(p) => Some(p.clone()),
            _ => None,
        };
        match browsed {
            None => {
                self.pending = pending;
                Request::Nothing
            },
            Some(p) => match listing {
                Ok(es) => {
                    self.directory_view = DirectoryView::new(p, es);
                    Request::Nothing
                },
                Err(e) => match pending {
                    Pending::ParentListing(_) => {
                        self.status_message = String::from_str("Cannot access parent directory.");
                        Request::Nothing
                    },
                    Pending::ChildListing(_) => {
                        let mut m = String::from_str("Error: ");
                        m.append(e.as_str());
                        self.status_message = m;
                        self.refresh()
                    },
                    _ => Request::Nothing,
                },
            },
        }
    }

    /// Takes in the text of a file that the session asked to read, or the
    /// error that reading it gave.
    pub fn complete_read(&mut self, contents: Result<String, String>) -> (r: Request)
        requires
            old(self).wf(),
        ensures
            final(self).wf(),
            read_step(*old(self), *final(self), contents, r),
    {
        let mut pending = Pending::Idle;
        std::mem::swap(&mut self.pending, &mut pending);
        match pending {
            Pending::OpenFile(p) => {
                let page = match &contents {
                    Ok(c) => Page::from_file(Some(p), Some(c.as_str())),
                    Err(_) => Page::from_file(Some(p), None),
                };
                self.tabs.push(page);
                assert(self.tabs@.take(old(self).tabs@.len() as int) =~= old(self).tabs@);
                self.active_tab_index = self.tabs.len() - 1;
                self.active_pane = ActivePane::Editor;
                self.mode = Mode::Edit;
                self.path_to_delete = None;
                self.path_to_rename = None;
            },
            Pending::Revert(p) => match &contents {
                Ok(c) => {
                    if self.active_tab_index < self.tabs.len() {
                        let i = self.active_tab_index;
                        self.tabs[i].load_from_string(c.as_str());
                    }
                    self.status_message = String::from_str("Reverted to saved version.");
                },
                Err(_) => {
                    let mut m = String::from_str("Error reading file: ");
                    m.append(p.as_str());
                    self.status_message = m;
                },
            },
            other => {
                self.pending = other;
            },
        }
        Request::Nothing
    }

    /// Closes every tab whose path lies within `gone`, and clamps the active index.
    fn close_tabs_within(&mut self, gone: &String)
        requires
            old(self).wf(),
        ensures
            final(self).wf(),
            final(self).tabs@ == tabs_outside(old(self).tabs@, gone@),
            final(self).active_tab_index == if final(self).tabs@.len() == 0 {
                0
            } else if old(self).active_tab_index < final(self).tabs@.len() {
                old(self).active_tab_index
            } else {
                (final(self).tabs@.len() - 1) as usize
            },
            *final(self) == (App { tabs: final(self).tabs, active_tab_index: final(self).active_tab_index, ..*old(self) }),
    {
        let mut old_tabs: Vec<Page> = Vec::new();
        std::mem::swap(&mut self.tabs, &mut old_tabs);
        let ghost all = old_tabs@;
        let mut kept: Vec<Page> = Vec::new();
        let mut rest = old_tabs;
        let ghost mut done: Seq<Page> = Seq::empty();
        while rest.len() > 0
            invariant
                done + rest@ == all,
                kept@ == tabs_outside(done, gone@),
            decreases rest@.len(),
        {
            let p = rest.remove(0);
            let inside = match &p.file_path {
                Some(f) => is_within(f.as_str(), gone.as_str()),
                None => false,
            };
            let ghost nd = done.push(p);
            proof {
                assert(nd.drop_last() =~= done);
            }
            if !inside {
                kept.push(p);
            }
            proof {
                done = nd;
                assert(done + rest@ =~= all);
            }
        }
        assert(done =~= all);
        self.tabs = kept;
        if self.tabs.len() == 0 {
            self.active_tab_index = 0;
        } else if self.active_tab_index >= self.tabs.len() {
            self.active_tab_index = self.tabs.len() - 1;
        }
    }

    /// Points every tab that has the path `from` at `to` instead.
    fn repoint_tabs(&mut self, from: &String, to: &String)
        requires
            old(self).wf(),
        ensures
            final(self).wf(),
            final(self).tabs@ == old(self).tabs@.map_values(|p: Page| repointed(p, from@, *to)),
            *final(self) == (App { tabs: final(self).tabs, ..*old(self) }),
    {
        let mut k: usize = 0;
        while k < self.tabs.len()
            invariant
                old(self).wf(),
                *self == (App { tabs: self.tabs, ..*old(self) }),
                self.tabs@.len() == old(self).tabs@.len(),
                k <= self.tabs@.len(),
                forall|j: int| 0 <= j < k ==> self.tabs@[j] == repointed(old(self).tabs@[j], from@, *to),
                forall|j: int| k <= j < self.tabs@.len() ==> self.tabs@[j] == old(self).tabs@[j],
            decreases self.tabs@.len() - k,
        {
            let same = match &self.tabs[k].file_path {
                Some(f) => crate::command::is_word(f, from.as_str()),
                None => false,
            };
            if same {
                self.tabs[k].file_path = Some(to.clone());
            }
            k += 1;
        }
        assert(self.tabs@ =~= old(self).tabs@.map_values(|p: Page| repointed(p, from@, *to)));
    }

    /// Takes in the outcome of a write, remove, directory creation or rename
    /// that the session asked for.
    pub fn complete_change(&mut self, result: Result<(), String>) -> (r: Request)
        requires
            old(self).wf(),
        ensures
            final(self).wf(),
            change_step(*old(self), *final(self), result, r),
    {
        let mut pending = Pending::Idle;
        std::mem::swap(&mut self.pending, &mut pending);
        let failure = match &result {
            Ok(_) => None,
            Err(e) => {
                let mut m = String::from_str("Error: ");
                m.append(e.as_str());
                Some(m)
            },
        };
        match pending {
            Pending::Save { path, close_tab } => {
                match failure {
                    None => {
                        let mut m = String::from_str("Saved to ");
                        m.append(path.as_str());
                        self.status_message = m;
                        if close_tab {
                            self.close_active_tab();
                        } else if self.active_tab_index < self.tabs.len() {
                            let i = self.active_tab_index;
                            self.tabs[i].file_path = Some(path);
                        }
                    },
                    Some(m) => {
                        self.status_message = m;
                    },
                }
                Request::Nothing
            },
            Pending::SaveAs { path, quit } => match failure {
                None => {
                    let mut m = String::from_str("Saved to ");
                    m.append(path.as_str());
                    self.status_message = m;
                    if self.active_tab_index < self.tabs.len() {
                        let i = self.active_tab_index;
                        self.tabs[i].file_path = Some(path);
                    }
                    self.command_buffer = String::new();
                    self.mode = Mode::Command;
                    self.path_to_delete = None;
                    self.path_to_rename = None;
                    if quit {
                        self.should_quit = true;
                    }
                    self.refresh()
                },
                Some(m) => {
                    self.status_message = m;
                    Request::Nothing
                },
            },
            Pending::Delete(gone) => {
                match &result {
                    Ok(_) => {
                        let mut m = String::from_str("Deleted ");
                        m.append(gone.as_str());
                        self.status_message = m;
                        self.close_tabs_within(&gone);
                    },
                    Err(e) => {
                        let mut m = String::from_str("Error deleting: ");
                        m.append(e.as_str());
                        self.status_message = m;
                    },
                }
                self.refresh()
            },
            Pending::CreateFile(p) => {
                match failure {
                    None => {
                        let mut m = String::from_str("Created ");
                        m.append(p.as_str());
                        self.status_message = m;
                        let mut page = Page::new();
                        page.file_path = Some(p);
                        self.tabs.push(page);
                        assert(self.tabs@.take(old(self).tabs@.len() as int) =~= old(self).tabs@);
                        self.active_tab_index = self.tabs.len() - 1;
                        self.active_pane = ActivePane::Editor;
                        self.mode = Mode::Edit;
                        self.path_to_delete = None;
                        self.path_to_rename = None;
                    },
                    Some(m) => {
                        self.status_message = m;
                    },
                }
                self.refresh()
            },
            Pending::CreateDirectory(p) => {
                match failure {
                    None => {
                        let mut m = String::from_str("Created ");
                        m.append(p.as_str());
                        self.status_message = m;
                    },
                    Some(m) => {
                        self.status_message = m;
                    },
                }
                self.refresh()
            },
            Pending::Rename(from, to) => {
                match failure {
                    None => {
                        let mut m = String::from_str("Renamed to ");
                        m.append(to.as_str());
                        self.status_message = m;
                        self.repoint_tabs(&from, &to);
                    },
                    Some(m) => {
                        self.status_message = m;
                    },
                }
                self.refresh()
            },
            other => {
                self.pending = other;
                Request::Nothing
            },
        }
    }

    /// Takes in the outcome of each write of a save of every tab, in the
    /// order of the request.
    pub fn complete_write_all(&mut self, results: Vec<Result<(), String>>) -> (r: Request)
        requires
            old(self).wf(),
        ensures
            final(self).wf(),
            write_all_step(*old(self), *final(self), results),
            r is Nothing,
    {
        let mut pending = Pending::Idle;
        std::mem::swap(&mut self.pending, &mut pending);
        match pending {
            Pending::SaveAll(paths) => {
                let ghost ps = views(paths@);
                let mut report = String::new();
                let mut any = false;
                let mut i: usize = 0;
                let n = if paths.len() < results.len() { 0 } else { results.len() };
                proof {
                    if paths@.len() < results@.len() {
                        assert(failures(ps, results@) == Seq::<Seq<char>>::empty());
                    }
                }
                while i < n
                    invariant
                        n <= results@.len(),
                        n == results@.len() || (n == 0 && failures(ps, results@).len() == 0),
                        n > 0 ==> ps.len() >= results@.len(),
                        ps == views(paths@),
                        i <= n,
                        any == (failures(ps, results@.take(i as int)).len() > 0),
                        report@ == comma_joined(failures(ps, results@.take(i as int))),
                    decreases n - i,
                {
                    let ghost t = results@.take(i + 1);
                    assert(t.drop_last() =~= results@.take(i as int));
                    match &results[i] {
                        Err(e) => {
                            if any {
                                report.append(", ");
                            }
                            report.append(paths[i].as_str());
                            report.append(": ");
                            report.append(e.as_str());
                            proof {
                                let f0 = failures(ps, results@.take(i as int));
                                let line = ps[i as int] + ": "@ + e@;
                                assert(failures(ps, t) == f0 + seq![line]);
                                assert(paths@[i as int]@ == ps[i as int]);
                                if f0.len() == 0 {
                                    assert(report@ =~= line);
                                    assert(comma_joined(f0 + seq![line]) == line);
                                } else {
                                    assert((f0 + seq![line]).drop_last() =~= f0);
                                    assert(report@ =~= comma_joined(f0) + ", "@ + line);
                                }
                            }
                            any = true;
                        },
                        Ok(_) => {
                            assert(failures(ps, t) =~= failures(ps, results@.take(i as int)));
                        },
                    }
                    i += 1;
                }
                proof {
                    if n == results@.len() {
                        assert(results@.take(n as int) =~= results@);
                    }
                }
                if any {
                    let mut m = String::from_str("Errors saving files: ");
                    m.append(report.as_str());
                    self.status_message = m;
                } else {
                    self.status_message = String::from_str("All files saved.");
                }
                self.should_quit = true;
            },
            other => {
                self.pending = other;
            },
        }
        Request::Nothing
    }

    /// A mouse event: scrolling and clicks in the directory tree, on the
    /// tab bar and in the editor.
    pub fn handle_mouse_event(&mut self, m: MouseInput, term_width: u16, term_height: u16)
        requires
            old(self).wf(),
        ensures
            final(self).wf(),
            mouse_step(*old(self), *final(self), m, term_width, term_height),
    {
        if self.mode == Mode::ConfirmDelete || self.mode == Mode::PromptNewFile || self.mode
            == Mode::PromptNewDirectory || self.mode == Mode::PromptRename {
            return;
        }
        let t: u16 = ((term_width as u32 + 2) / 4) as u16;
        let start: u16 = t + 1;
        let v: usize = if term_height > 2 { (term_height - 2) as usize } else { 1 };
        let has_tab = self.active_tab_index < self.tabs.len();
        let i = self.active_tab_index;
        match m.action {
            MouseAction::ScrollUp => {
                if m.column < t {
                    if self.directory_view.scroll_offset > 0 {
                        self.directory_view.scroll_offset = self.directory_view.scroll_offset - 1;
                    }
                } else if has_tab {
                    if self.tabs[i].scroll_offset > 0 {
                        self.tabs[i].scroll_offset = self.tabs[i].scroll_offset - 1;
                    }
                }
            },
            MouseAction::ScrollDown => {
                if m.column < t {
                    let n = self.directory_view.entries.len();
                    if n > v {
                        let off = self.directory_view.scroll_offset;
                        self.directory_view.scroll_offset = if off < n - v - 1 { off + 1 } else { n - v };
                    }
                } else if has_tab {
                    let n = self.tabs[i].get_all_lines().len();
                    if n > v {
                        let off = self.tabs[i].scroll_offset;
                        self.tabs[i].scroll_offset = if off < n - v - 1 { off + 1 } else { n - v };
                    }
                }
            },
            MouseAction::Press => {
                if m.column < t {
                    self.active_pane = ActivePane::FileTree;
                    self.mode = Mode::FileTree;
                    let n = self.directory_view.entries.len();
                    if n > 0 {
                        let r1: usize = if m.row > 0 { (m.row - 1) as usize } else { 0 };
                        let off = self.directory_view.scroll_offset;
                        self.directory_view.selected_index = if off < n - 1 && r1 < n - 1 - off {
                            r1 + off
                        } else {
                            n - 1
                        };
                    }
                } else if m.row == 0 && m.column >= start && self.tabs.len() > 0 {
                    let x = (m.column - start) as usize;
                    let mut cur: usize = 0;
                    let mut k: usize = 0;
                    let mut done = false;
                    while k < self.tabs.len() && !done
                        invariant
                            old(self).wf(),
                            !in_dialog(old(self).mode),
                            *self == (App { active_tab_index: self.active_tab_index, ..*old(self) }),
                            k <= self.tabs@.len(),
                            !done ==> cur == tab_start(self.tabs@, k as int) && x >= cur,
                            !done ==> self.active_tab_index == old(self).active_tab_index,
                            !done ==> forall|j: int| 0 <= j < k ==> !on_tab(self.tabs@, j, x as int),
                            done ==> on_tab(self.tabs@, self.active_tab_index as int, x as int),
                        decreases self.tabs@.len() - k + if done { 0int } else { 1int },
                    {
                        let len = tab_label_len(&self.tabs[k]);
                        let fits = cur <= usize::MAX - 2 && len <= usize::MAX - 2 - cur;
                        if !fits || x - cur < len + 2 {
                            self.active_tab_index = k;
                            done = true;
                        } else {
                            cur = cur + len + 2;
                            k += 1;
                        }
                    }
                    proof {
                        if done {
                            let a = self.active_tab_index as int;
                            assert forall|i: int| #[trigger] on_tab(old(self).tabs@, i, x as int) implies i == a by {
                                if i < a {
                                    lemma_tab_start_grows(old(self).tabs@, i + 1, a);
                                } else if i > a {
                                    lemma_tab_start_grows(old(self).tabs@, a + 1, i);
                                }
                            }
                        } else {
                            assert forall|i: int| !#[trigger] on_tab(old(self).tabs@, i, x as int) by {
                                if 0 <= i < old(self).tabs@.len() {
                                    assert(i < k);
                                }
                            }
                        }
                    }
                } else if m.row > 0 && m.column >= start && self.tabs.len() > 0 {
                    self.active_pane = ActivePane::Editor;
                    self.mode = Mode::Edit;
                    if has_tab {
                        let g = decimal_width(self.tabs[i].get_all_lines().len());
                        let x = (m.column - start) as usize;
                        let c0: usize = if x > g && x - g > 2 { x - g - 2 } else { 0 };
                        let hoff = self.tabs[i].horizontal_scroll_offset;
                        let c: usize = if hoff > usize::MAX - c0 { usize::MAX } else { c0 + hoff };
                        let r1 = (m.row - 1) as usize;
                        let off = self.tabs[i].scroll_offset;
                        let target: usize = if off > usize::MAX - r1 { usize::MAX } else { r1 + off };
                        self.tabs[i].move_cursor_to(target, c);
                    }
                }
            },
            MouseAction::Other => {},
        }
    }

    /// Scrolls the focused pane just enough to show the cursor, or the
    /// selected entry.
    fn scroll_to_cursor(&mut self, term_width: u16, term_height: u16)
        requires
            old(self).wf(),
        ensures
            final(self).wf(),
            scrolled(*old(self), *final(self), term_width, term_height),
    {
        let v: usize = if term_height > 2 { (term_height - 2) as usize } else { 1 };
        match self.active_pane {
            ActivePane::Editor => {
                if self.active_tab_index < self.tabs.len() {
                    let i = self.active_tab_index;
                    let row = self.tabs[i].cursor_row();
                    let off = self.tabs[i].scroll_offset;
                    self.tabs[i].scroll_offset = if row < off {
                        row
                    } else if row - off >= v {
                        row - v + 1
                    } else {
                        off
                    };
                    let col = self.tabs[i].current.cursor_position();
                    let hoff = self.tabs[i].horizontal_scroll_offset;
                    let g = decimal_width(self.tabs[i].get_all_lines().len());
                    let t: u16 = ((term_width as u32 + 2) / 4) as u16;
                    let ew: usize = if term_width - t > 1 { (term_width - t - 1) as usize } else { 0 };
                    let tw: usize = if ew > g && ew - g > 2 { ew - g - 2 } else { 0 };
                    let cols: usize = if tw > 0 { tw } else { 1 };
                    self.tabs[i].horizontal_scroll_offset = if col < hoff {
                        col
                    } else if col - hoff >= cols {
                        col - cols + 1
                    } else {
                        hoff
                    };
                }
            },
            ActivePane::FileTree => {
                let sel = self.directory_view.selected_index;
                let off = self.directory_view.scroll_offset;
                self.directory_view.scroll_offset = if sel < off {
                    sel
                } else if sel - off >= v {
                    sel - v + 1
                } else {
                    off
                };
            },
        }
    }

    /// A key: a dialog takes it if one is open, else the focused pane does;
    /// then the view follows the cursor.
    pub fn handle_key_event(&mut self, input: KeyInput, term_width: u16, term_height: u16) -> (r: Request)
        requires
            old(self).wf(),
        ensures
            final(self).wf(),
            key_step(*old(self), *final(self), input, term_width, term_height, r),
    {
        if self.mode == Mode::ConfirmDelete {
            return self.handle_delete_confirm_event(input.key);
        }
        if self.mode == Mode::PromptNewFile || self.mode == Mode::PromptNewDirectory || self.mode
            == Mode::PromptRename {
            return self.handle_prompt_input_event(input.key);
        }
        let r = match self.active_pane {
            ActivePane::Editor => self.handle_editor_event(input),
            ActivePane::FileTree => self.handle_file_tree_event(input.key),
        };
        let ghost m = *self;
        assert(pane_step(*old(self), m, input, r));
        self.scroll_to_cursor(term_width, term_height);
        assert(scrolled(m, *self, term_width, term_height));
        r
    }

    /// Any input event. The status message is cleared first; the request
    /// returned is the file system work the event needs, if any.
    pub fn handle_event(&mut self, event: Event, term_width: u16, term_height: u16) -> (r: Request)
        requires
            old(self).wf(),
        ensures
            final(self).wf(),
            exists|c: App|
                {
                    &&& #[trigger] cleared(*old(self), c)
                    &&& match event {
                        Event::Key(k) => key_step(c, *final(self), k, term_width, term_height, r),
                        Event::Mouse(m) => r is Nothing && mouse_step(c, *final(self), m, term_width, term_height),
                        Event::Other => r is Nothing && *final(self) == c,
                    }
                },
    {
        self.status_message = String::new();
        let ghost c = *self;
        assert(cleared(*old(self), c));
        match event {
            Event::Key(k) => self.handle_key_event(k, term_width, term_height),
            Event::Mouse(m) => {
                self.handle_mouse_event(m, term_width, term_height);
                Request::Nothing
            },
            Event::Other => Request::Nothing,
        }
    }

    /// The active tab's document, if any tab is open.
    pub fn get_active_page(&self) -> (r: Option<&Page>)
        ensures
            match r {
                Some(p) => self.active() == Some(*p),
                None => self.active() is None,
            },
    {
        if self.active_tab_index < self.tabs.len() {
            Some(&self.tabs[self.active_tab_index])
        } else {
            None
        }
    }
}

} // verus!
