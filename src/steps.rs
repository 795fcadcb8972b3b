//! How each kind of input takes the session from one state to the next:
//! the transition relations that the session's handlers are proved to meet.

use vstd::prelude::*;
use crate::command::{command_arg, command_name, kind_of, CommandKind};
use crate::directory::{is_listing_order, is_sorted_listing, DirectoryView, Entry};
use crate::input::{Key, KeyInput, Modifiers, MouseAction, MouseInput};
use crate::page::Page;
use crate::paths::{file_name_of, path_file_name, path_joined, path_parent, path_renamed, path_within};
use crate::session::{ActivePane, App, Mode, Pending, Request};
use crate::text::{chars_of, joined, lines_of, views};

verus! {

/// The index after `i` among `n`, wrapping round.
pub open spec fn next_index(i: int, n: int) -> int {
    if i + 1 == n {
        0
    } else {
        i + 1
    }
}

/// The index before `i` among `n`, wrapping round.
pub open spec fn prev_index(i: int, n: int) -> int {
    if i == 0 {
        n - 1
    } else {
        i - 1
    }
}

/// How a key in `Find` mode takes the session from `o` to `s`.
pub open spec fn find_step(o: App, s: App, input: KeyInput) -> bool {
    let nav = o.find_navigation_active;
    let q = o.find_query@;
    let n = o.find_matches@.len() as int;
    match input.key {
        Key::Esc => {
            &&& s.mode == Mode::Command
            &&& s.find_query@.len() == 0
            &&& s.find_matches@.len() == 0
            &&& !s.find_navigation_active
            &&& s.tabs == o.tabs
        },
        Key::Enter => if q.len() > 0 {
            &&& s.find_navigation_active
            &&& s.jumped(&o)
            &&& s.find_query == o.find_query
            &&& s.find_matches == o.find_matches
            &&& s.current_match_index == o.current_match_index
            &&& s.mode == o.mode
        } else {
            s == o
        },
        Key::Char(c) => if nav && c == 'n' && input.modifiers == Modifiers::Plain {
            &&& n > 0 ==> s.current_match_index == next_index(o.current_match_index as int, n)
                && s.jumped(&App { current_match_index: s.current_match_index, ..o })
            &&& n == 0 ==> s == o
            &&& s.find_query == o.find_query
            &&& s.find_matches == o.find_matches
            &&& s.find_navigation_active
            &&& s.mode == o.mode
        } else if nav && (c == 'n' || c == 'N') && input.modifiers == Modifiers::Shift {
            &&& n > 0 ==> s.current_match_index == prev_index(o.current_match_index as int, n)
                && s.jumped(&App { current_match_index: s.current_match_index, ..o })
            &&& n == 0 ==> s == o
            &&& s.find_query == o.find_query
            &&& s.find_matches == o.find_matches
            &&& s.find_navigation_active
            &&& s.mode == o.mode
        } else {
            &&& s.find_query@ == q.push(c)
            &&& !s.find_navigation_active
            &&& s.searched(&o)
            &&& s.mode == o.mode
        },
        Key::Backspace => if q.len() > 0 {
            &&& s.find_query@ == q.drop_last()
            &&& !s.find_navigation_active
            &&& s.searched(&o)
            &&& s.mode == o.mode
        } else {
            s == o
        },
        _ => s == o,
    }
}

/// The path and saved text of each tab that has a path, in tab order.
pub open spec fn save_list(tabs: Seq<Page>) -> Seq<(Seq<char>, Seq<char>)>
    decreases tabs.len(),
{
    if tabs.len() == 0 {
        Seq::empty()
    } else {
        let p = tabs.last();
        save_list(tabs.drop_last()) + match p.file_path {
            Some(f) => seq![(f@, joined(p.lines()))],
            None => Seq::empty(),
        }
    }
}

/// The views of a sequence of pairs of strings.
pub open spec fn pair_views(v: Seq<(String, String)>) -> Seq<(Seq<char>, Seq<char>)> {
    v.map_values(|p: (String, String)| (p.0@, p.1@))
}

/// The status message that `h` shows.
pub open spec fn help_text() -> Seq<char> {
    "Help | Modes: Esc (Cmd/Edit), Tab (Dir) | Cmds: f, q, w, wq, x, wx, r | Dir Cmds: nf, nd, rn, d"@
}

/// `s` is `o` with the active tab closed and the active index clamped
/// into what remains; with no tab open nothing changes.
pub open spec fn tab_closed(o: App, s: App) -> bool {
    &&& o.tabs@.len() > 0 ==> s.tabs@ == o.tabs@.remove(o.active_tab_index as int)
    &&& o.tabs@.len() == 0 ==> s.tabs@ == o.tabs@
    &&& s.active_tab_index == if s.tabs@.len() == 0 {
        0
    } else if o.active_tab_index < s.tabs@.len() {
        o.active_tab_index
    } else {
        (s.tabs@.len() - 1) as usize
    }
}

/// The saved text of the active tab, or nothing when no tab is open.
pub open spec fn active_text(o: App) -> Seq<char> {
    match o.active() {
        Some(p) => joined(p.lines()),
        None => Seq::empty(),
    }
}

/// How saving the active tab starts, to `arg` if given, else to the tab's
/// own path; with neither the session asks for a name.
pub open spec fn save_started(o: App, s: App, arg: Option<Seq<char>>, close_tab: bool, r: Request) -> bool {
    let target = match arg {
        Some(a) => Some(a),
        None => match o.active() {
            Some(p) => match p.file_path {
                Some(f) => Some(f@),
                None => None,
            },
            None => None,
        },
    };
    match target {
        Some(t) => {
            &&& r matches Request::WriteFile(path, text) && path@ == t && text@ == active_text(o)
            &&& s.pending matches Pending::Save { path, close_tab: c } && path@ == t && c == close_tab
            &&& s.mode == o.mode
        },
        None => {
            &&& r is Nothing
            &&& s.mode == Mode::PromptSave
            &&& s.pending == o.pending
        },
    }
}

/// How the command typed at the command line takes the session from `o`
/// to `s`, returning `r`. The command line is empty afterwards.
pub open spec fn command_step(o: App, s: App, r: Request) -> bool {
    let line = o.command_buffer@;
    let n = command_name(line);
    let cb = s.command_buffer;
    &&& s.command_buffer@.len() == 0
    &&& match kind_of(n) {
        CommandKind::Find => {
            &&& s.find_query@.len() == 0
            &&& r is Nothing
            &&& s == App { mode: Mode::Find, find_query: s.find_query, command_buffer: cb, ..o }
        },
        CommandKind::Quit => {
            &&& tab_closed(o, s)
            &&& r is Nothing
            &&& s == App { tabs: s.tabs, active_tab_index: s.active_tab_index, command_buffer: cb, ..o }
        },
        CommandKind::Exit => r is Nothing && s == App { should_quit: true, command_buffer: cb, ..o },
        CommandKind::SaveAllAndExit => {
            &&& r matches Request::WriteFiles(v) && pair_views(v@) == save_list(o.tabs@)
            &&& s.pending matches Pending::SaveAll(ps) && views(ps@) == save_list(o.tabs@).map_values(
                |e: (Seq<char>, Seq<char>)| e.0,
            )
            &&& s == App { pending: s.pending, command_buffer: cb, ..o }
        },
        CommandKind::Help => {
            &&& s.status_message@ == help_text()
            &&& r is Nothing
            &&& s == App { status_message: s.status_message, command_buffer: cb, ..o }
        },
        CommandKind::Revert => match o.active() {
            Some(p) if p.file_path is Some => {
                &&& r matches Request::ReadFile(path) && path@ == p.file_path->0@
                &&& s.pending matches Pending::Revert(path) && path@ == p.file_path->0@
                &&& s == App { pending: s.pending, command_buffer: cb, ..o }
            },
            _ => {
                &&& r is Nothing
                &&& s.status_message@ == "No file to revert from."@
                &&& s == App { status_message: s.status_message, command_buffer: cb, ..o }
            },
        },
        CommandKind::Write => {
            &&& save_started(o, s, command_arg(line), false, r)
            &&& s == App { mode: s.mode, pending: s.pending, command_buffer: cb, ..o }
        },
        CommandKind::WriteAndClose => {
            &&& save_started(o, s, command_arg(line), true, r)
            &&& s == App { mode: s.mode, pending: s.pending, command_buffer: cb, ..o }
        },
        CommandKind::Unknown => {
            &&& s.status_message@ == "Unknown command: "@ + line
            &&& r is Nothing
            &&& s == App { status_message: s.status_message, command_buffer: cb, ..o }
        },
    }
}

/// How a key at the save prompt takes the session from `o` to `s`,
/// returning `r`. Enter asks to write the active tab to the typed name in the
/// browsed directory; the name stays until the write succeeds.
pub open spec fn save_prompt_step(o: App, s: App, key: Key, r: Request) -> bool {
    let b = o.command_buffer@;
    match key {
        Key::Esc => {
            &&& s.status_message@ == "Save cancelled."@
            &&& s.command_buffer@.len() == 0
            &&& s.mode == Mode::Command
            &&& r is Nothing
            &&& s == App { status_message: s.status_message, command_buffer: s.command_buffer, mode: s.mode, ..o }
        },
        Key::Char(c) => {
            &&& s.command_buffer@ == b.push(c)
            &&& r is Nothing
            &&& s == App { command_buffer: s.command_buffer, ..o }
        },
        Key::Backspace => {
            &&& s.command_buffer@ == if b.len() > 0 { b.drop_last() } else { b }
            &&& r is Nothing
            &&& s == App { command_buffer: s.command_buffer, ..o }
        },
        Key::Enter => if b.len() > 0 {
            let path = path_joined(o.directory_view.path@, b);
            &&& r matches Request::WriteFile(p, text) && p@ == path && text@ == active_text(o)
            &&& s.pending matches Pending::SaveAs { path: p, quit } && p@ == path && quit == (o.mode
                == Mode::PromptSaveAndQuit)
            &&& s == App { pending: s.pending, ..o }
        } else {
            r is Nothing && s == o
        },
        _ => r is Nothing && s == o,
    }
}

/// How a key in the editor pane takes the session from `o` to `s`,
/// returning `r`, outside the find and save-prompt modes.
pub open spec fn editor_step(o: App, s: App, key: Key, r: Request) -> bool {
    match key {
        Key::Esc => {
            &&& r is Nothing
            &&& o.mode == Mode::Edit ==> s == App { mode: Mode::Command, ..o }
            &&& o.mode == Mode::Command && o.tabs@.len() > 0 ==> s.command_buffer@.len() == 0 && s
                == App { mode: Mode::Edit, command_buffer: s.command_buffer, ..o }
            &&& !(o.mode == Mode::Edit || (o.mode == Mode::Command && o.tabs@.len() > 0)) ==> s == o
        },
        Key::Char(c) => {
            &&& r is Nothing
            &&& o.mode == Mode::Edit ==> s.tab_edited(&o, |p: Page, q: Page| Page::char_inserted(p, q, c))
                && s == App { tabs: s.tabs, ..o }
            &&& o.mode == Mode::Command ==> s.command_buffer@ == o.command_buffer@.push(c) && s
                == App { command_buffer: s.command_buffer, ..o }
            &&& o.mode != Mode::Edit && o.mode != Mode::Command ==> s == o
        },
        Key::Backspace => {
            &&& r is Nothing
            &&& o.mode == Mode::Edit ==> s.tab_edited(&o, |p: Page, q: Page| Page::deleted(p, q)) && s
                == App { tabs: s.tabs, ..o }
            &&& o.mode == Mode::Command ==> s.command_buffer@ == (if o.command_buffer@.len() > 0 {
                o.command_buffer@.drop_last()
            } else {
                o.command_buffer@
            }) && s == App { command_buffer: s.command_buffer, ..o }
            &&& o.mode != Mode::Edit && o.mode != Mode::Command ==> s == o
        },
        Key::Enter => {
            &&& o.mode == Mode::Edit ==> r is Nothing && s.tab_edited(
                &o,
                |p: Page, q: Page| Page::line_split(p, q),
            ) && s == App { tabs: s.tabs, ..o }
            &&& o.mode == Mode::Command ==> command_step(o, s, r)
            &&& o.mode != Mode::Edit && o.mode != Mode::Command ==> r is Nothing && s == o
        },
        Key::Left => {
            &&& r is Nothing
            &&& o.mode == Mode::Command && o.tabs@.len() > 1 ==> s == App {
                active_tab_index: prev_index(o.active_tab_index as int, o.tabs@.len() as int) as usize,
                ..o
            }
            &&& o.mode == Mode::Edit ==> s.tab_edited(&o, |p: Page, q: Page| Page::moved_left(p, q)) && s
                == App { tabs: s.tabs, ..o }
            &&& !(o.mode == Mode::Edit || (o.mode == Mode::Command && o.tabs@.len() > 1)) ==> s == o
        },
        Key::Right => {
            &&& r is Nothing
            &&& o.mode == Mode::Command && o.tabs@.len() > 1 ==> s == App {
                active_tab_index: next_index(o.active_tab_index as int, o.tabs@.len() as int) as usize,
                ..o
            }
            &&& o.mode == Mode::Edit ==> s.tab_edited(&o, |p: Page, q: Page| Page::moved_right(p, q)) && s
                == App { tabs: s.tabs, ..o }
            &&& !(o.mode == Mode::Edit || (o.mode == Mode::Command && o.tabs@.len() > 1)) ==> s == o
        },
        Key::Up => {
            &&& r is Nothing
            &&& o.mode == Mode::Edit ==> s.tab_edited(&o, |p: Page, q: Page| Page::moved_up(p, q)) && s
                == App { tabs: s.tabs, ..o }
            &&& o.mode != Mode::Edit ==> s == o
        },
        Key::Down => {
            &&& r is Nothing
            &&& o.mode == Mode::Edit ==> s.tab_edited(&o, |p: Page, q: Page| Page::moved_down(p, q)) && s
                == App { tabs: s.tabs, ..o }
            &&& o.mode != Mode::Edit ==> s == o
        },
        Key::Tab => {
            &&& r is Nothing
            &&& s.command_buffer@.len() == 0
            &&& s == App {
                active_pane: ActivePane::FileTree,
                mode: Mode::FileTree,
                command_buffer: s.command_buffer,
                ..o
            }
        },
        Key::Other => r is Nothing && s == o,
    }
}

/// How opening the selected entry takes the session from `o` to `s`,
/// returning `r`: a directory is listed to be browsed; a file already open
/// in a tab focuses that tab; another file is read to open in a new tab.
pub open spec fn entry_opened(o: App, s: App, r: Request) -> bool {
    let d = o.directory_view;
    if d.selected_index < d.entries@.len() {
        let e = d.entries@[d.selected_index as int];
        if e.is_dir {
            &&& r matches Request::ListDirectory(p) && p@ == e.path@
            &&& s.pending matches Pending::ChildListing(p) && p@ == e.path@
            &&& s == App { pending: s.pending, ..o }
        } else if exists|k: int| 0 <= k < o.tabs@.len() && is_open_at(o.tabs@, k, e.path@) {
            &&& r is Nothing
            &&& is_open_at(o.tabs@, s.active_tab_index as int, e.path@)
            &&& forall|k: int| 0 <= k < s.active_tab_index ==> !is_open_at(o.tabs@, k, e.path@)
            &&& s == App {
                active_tab_index: s.active_tab_index,
                active_pane: ActivePane::Editor,
                mode: Mode::Edit,
                ..o
            }
        } else {
            &&& r matches Request::ReadFile(p) && p@ == e.path@
            &&& s.pending matches Pending::OpenFile(p) && p@ == e.path@
            &&& s == App { pending: s.pending, ..o }
        }
    } else {
        r is Nothing && s == o
    }
}

/// Tab `k` of `tabs` holds the file at `path`.
pub open spec fn is_open_at(tabs: Seq<Page>, k: int, path: Seq<char>) -> bool {
    0 <= k < tabs.len() && (tabs[k].file_path matches Some(f) && f@ == path)
}

/// How a key in the directory tree takes the session from `o` to `s`,
/// returning `r`.
pub open spec fn tree_step(o: App, s: App, key: Key, r: Request) -> bool {
    let d = o.directory_view;
    let b = o.command_buffer@;
    let has_sel = d.selected_index < d.entries@.len();
    match key {
        Key::Up | Key::Char('k') => {
            &&& r is Nothing
            &&& s.directory_view.selected_index == if d.selected_index > 0 {
                (d.selected_index - 1) as usize
            } else {
                0
            }
            &&& s == App {
                directory_view: DirectoryView { selected_index: s.directory_view.selected_index, ..d },
                ..o
            }
        },
        Key::Down | Key::Char('j') => {
            &&& r is Nothing
            &&& s.directory_view.selected_index == if d.selected_index + 1 < d.entries@.len() {
                (d.selected_index + 1) as usize
            } else {
                d.selected_index
            }
            &&& s == App {
                directory_view: DirectoryView { selected_index: s.directory_view.selected_index, ..d },
                ..o
            }
        },
        Key::Left => {
            &&& s.command_buffer@.len() == 0
            &&& match path_parent(d.path@) {
                Some(p) => {
                    &&& r matches Request::ListDirectory(q) && q@ == p
                    &&& s.pending matches Pending::ParentListing(q) && q@ == p
                    &&& s == App { pending: s.pending, command_buffer: s.command_buffer, ..o }
                },
                None => r is Nothing && s == App { command_buffer: s.command_buffer, ..o },
            }
        },
        Key::Right | Key::Char('l') => {
            &&& s.command_buffer@.len() == 0
            &&& entry_opened(o, App { command_buffer: o.command_buffer, ..s }, r)
        },
        Key::Enter => if b.len() == 0 {
            entry_opened(o, s, r)
        } else {
            &&& s.command_buffer@.len() == 0
            &&& r is Nothing
            &&& if b == "d"@ {
                &&& has_sel ==> {
                    &&& s.mode == Mode::ConfirmDelete
                    &&& s.path_to_delete matches Some(p) && p@ == d.entries@[d.selected_index as int].path@
                    &&& s == App {
                        mode: s.mode,
                        path_to_delete: s.path_to_delete,
                        command_buffer: s.command_buffer,
                        ..o
                    }
                }
                &&& !has_sel ==> s == App { command_buffer: s.command_buffer, ..o }
            } else if b == "nf"@ {
                s == App { mode: Mode::PromptNewFile, command_buffer: s.command_buffer, ..o }
            } else if b == "nd"@ {
                s == App { mode: Mode::PromptNewDirectory, command_buffer: s.command_buffer, ..o }
            } else if b == "rn"@ {
                &&& has_sel ==> {
                    &&& s.mode == Mode::PromptRename
                    &&& s.path_to_rename matches Some(p) && p@ == d.entries@[d.selected_index as int].path@
                    &&& s == App {
                        mode: s.mode,
                        path_to_rename: s.path_to_rename,
                        command_buffer: s.command_buffer,
                        ..o
                    }
                }
                &&& !has_sel ==> s == App { command_buffer: s.command_buffer, ..o }
            } else {
                &&& s.status_message@ == "Unknown command: "@ + b
                &&& s == App { status_message: s.status_message, command_buffer: s.command_buffer, ..o }
            }
        },
        Key::Esc => {
            &&& r is Nothing
            &&& s.command_buffer@.len() == 0
            &&& s == App {
                active_pane: ActivePane::Editor,
                mode: Mode::Command,
                command_buffer: s.command_buffer,
                ..o
            }
        },
        Key::Tab => {
            &&& r is Nothing
            &&& s.command_buffer@.len() == 0
            &&& s == App {
                active_pane: ActivePane::Editor,
                mode: if o.tabs@.len() > 0 { Mode::Edit } else { Mode::Command },
                command_buffer: s.command_buffer,
                ..o
            }
        },
        Key::Char(c) => {
            &&& r is Nothing
            &&& s.command_buffer@ == b.push(c)
            &&& s == App { command_buffer: s.command_buffer, ..o }
        },
        Key::Backspace => {
            &&& r is Nothing
            &&& s.command_buffer@ == if b.len() > 0 { b.drop_last() } else { b }
            &&& s == App { command_buffer: s.command_buffer, ..o }
        },
        _ => r is Nothing && s == o,
    }
}

/// How a key while a delete awaits confirmation takes the session from `o`
/// to `s`, returning `r`: `y` asks to remove the path, `n` or Escape cancels.
pub open spec fn confirm_step(o: App, s: App, key: Key, r: Request) -> bool {
    match key {
        Key::Char('y') | Key::Char('Y') => {
            &&& r matches Request::Remove(p) && p == o.path_to_delete->0
            &&& s.pending matches Pending::Delete(p) && p == o.path_to_delete->0
            &&& s == App { pending: s.pending, path_to_delete: None, mode: Mode::FileTree, ..o }
        },
        Key::Char('n') | Key::Char('N') | Key::Esc => {
            &&& r is Nothing
            &&& s.status_message@ == "Delete cancelled."@
            &&& s == App {
                status_message: s.status_message,
                path_to_delete: None,
                mode: Mode::FileTree,
                ..o
            }
        },
        _ => r is Nothing && s == o,
    }
}

/// How a key at the prompt for a new file's, a new directory's or a new
/// name takes the session from `o` to `s`, returning `r`.
pub open spec fn name_prompt_step(o: App, s: App, key: Key, r: Request) -> bool {
    let b = o.command_buffer@;
    match key {
        Key::Esc => {
            &&& r is Nothing
            &&& s.status_message@ == "Cancelled."@
            &&& s.command_buffer@.len() == 0
            &&& s == App {
                status_message: s.status_message,
                command_buffer: s.command_buffer,
                mode: Mode::FileTree,
                path_to_rename: None,
                ..o
            }
        },
        Key::Char(c) => {
            &&& r is Nothing
            &&& s.command_buffer@ == b.push(c)
            &&& s == App { command_buffer: s.command_buffer, ..o }
        },
        Key::Backspace => {
            &&& r is Nothing
            &&& s.command_buffer@ == if b.len() > 0 { b.drop_last() } else { b }
            &&& s == App { command_buffer: s.command_buffer, ..o }
        },
        Key::Enter => if b.len() > 0 {
            let made = path_joined(o.directory_view.path@, b);
            &&& s.command_buffer@.len() == 0
            &&& s == App {
                command_buffer: s.command_buffer,
                mode: Mode::FileTree,
                path_to_rename: None,
                pending: s.pending,
                ..o
            }
            &&& o.mode == Mode::PromptRename ==> {
                let from = o.path_to_rename->0;
                &&& r matches Request::Rename(f, t) && f == from && t@ == path_renamed(from@, b)
                &&& s.pending matches Pending::Rename(f, t) && f == from && t@ == path_renamed(from@, b)
            }
            &&& o.mode == Mode::PromptNewFile ==> {
                &&& r matches Request::WriteFile(p, text) && p@ == made && text@.len() == 0
                &&& s.pending matches Pending::CreateFile(p) && p@ == made
            }
            &&& o.mode == Mode::PromptNewDirectory ==> {
                &&& r matches Request::CreateDirectory(p) && p@ == made
                &&& s.pending matches Pending::CreateDirectory(p) && p@ == made
            }
        } else {
            r is Nothing && s == o
        },
        _ => r is Nothing && s == o,
    }
}

/// `d` is a fresh snapshot of the directory at `path` holding `listing`.
pub open spec fn fresh_snapshot(d: DirectoryView, path: Seq<char>, listing: Seq<Entry>) -> bool {
    &&& d.wf()
    &&& d.path@ == path
    &&& is_listing_order(d.entries@)
    &&& is_sorted_listing(d.entries@)
    &&& d.entries@.to_multiset() == listing.to_multiset()
    &&& d.selected_index == 0
    &&& d.scroll_offset == 0
}

/// The tabs of `tabs` whose path does not lie within `gone`, in order.
pub open spec fn tabs_outside(tabs: Seq<Page>, gone: Seq<char>) -> Seq<Page>
    decreases tabs.len(),
{
    if tabs.len() == 0 {
        Seq::empty()
    } else {
        let p = tabs.last();
        tabs_outside(tabs.drop_last(), gone) + if p.file_path matches Some(f) && path_within(
            f@,
            gone,
        ) {
            Seq::empty()
        } else {
            seq![p]
        }
    }
}

/// `p` with its path moved from `from` to `to`, if it had the path `from`.
pub open spec fn repointed(p: Page, from: Seq<char>, to: String) -> Page {
    if p.file_path matches Some(f) && f@ == from {
        Page { file_path: Some(to), ..p }
    } else {
        p
    }
}

/// What the save-all report says of each failed write: the path and the error.
pub open spec fn failures(paths: Seq<Seq<char>>, results: Seq<Result<(), String>>) -> Seq<Seq<char>>
    decreases results.len(),
{
    if results.len() == 0 || paths.len() < results.len() {
        Seq::empty()
    } else {
        let i = results.len() - 1;
        failures(paths, results.drop_last()) + match results[i] {
            Err(e) => seq![paths[i] + ": "@ + e@],
            Ok(_) => Seq::empty(),
        }
    }
}

/// The items of `ls` with `", "` between each two.
pub open spec fn comma_joined(ls: Seq<Seq<char>>) -> Seq<char>
    decreases ls.len(),
{
    if ls.len() == 0 {
        Seq::empty()
    } else if ls.len() == 1 {
        ls[0]
    } else {
        comma_joined(ls.drop_last()) + ", "@ + ls.last()
    }
}

/// `s` is `o` after the pending request, awaited no more, was followed by a
/// fresh listing of the browsed directory.
pub open spec fn refreshing(s: App, r: Request) -> bool {
    &&& r matches Request::ListDirectory(p) && p@ == s.directory_view.path@
    &&& s.pending matches Pending::Refresh(p) && p@ == s.directory_view.path@
}

/// How the outcome of a listing takes the session from `o` to `s`,
/// returning `r`.
pub open spec fn listing_step(o: App, s: App, listing: Result<Vec<Entry>, String>, r: Request) -> bool {
    let browsed = match o.pending {
        Pending::ParentListing(p) => Some(p),
        Pending::ChildListing(p) => Some(p),
        Pending::Refresh(p) => Some(p),
        _ => None,
    };
    match (browsed, listing) {
        (Some(p), Ok(es)) => {
            &&& fresh_snapshot(s.directory_view, p@, es@)
            &&& r is Nothing
            &&& s == App { directory_view: s.directory_view, pending: Pending::Idle, ..o }
        },
        (Some(_), Err(e)) => match o.pending {
            Pending::ParentListing(_) => {
                &&& s.status_message@ == "Cannot access parent directory."@
                &&& r is Nothing
                &&& s == App { status_message: s.status_message, pending: Pending::Idle, ..o }
            },
            Pending::ChildListing(_) => {
                &&& s.status_message@ == "Error: "@ + e@
                &&& refreshing(s, r)
                &&& s == App { status_message: s.status_message, pending: s.pending, ..o }
            },
            _ => r is Nothing && s == App { pending: Pending::Idle, ..o },
        },
        _ => r is Nothing && s == o,
    }
}

/// How the outcome of a file read takes the session from `o` to `s`,
/// returning `r`. A file that cannot be read opens as an empty document.
pub open spec fn read_step(o: App, s: App, contents: Result<String, String>, r: Request) -> bool {
    &&& r is Nothing
    &&& match o.pending {
        Pending::OpenFile(p) => {
            &&& s.tabs@.len() == o.tabs@.len() + 1
            &&& s.tabs@.take(o.tabs@.len() as int) == o.tabs@
            &&& s.tabs@.last().file_path == Some(p)
            &&& s.tabs@.last().lines() == match contents {
                Ok(c) => lines_of(c@),
                Err(_) => seq![Seq::<char>::empty()],
            }
            &&& s.tabs@.last().row() == 0 && s.tabs@.last().col() == 0
            &&& s == App {
                tabs: s.tabs,
                active_tab_index: o.tabs@.len() as usize,
                active_pane: ActivePane::Editor,
                mode: Mode::Edit,
                path_to_delete: None,
                path_to_rename: None,
                pending: Pending::Idle,
                ..o
            }
        },
        Pending::Revert(p) => match contents {
            Ok(c) => {
                &&& s.status_message@ == "Reverted to saved version."@
                &&& s.tab_edited(
                    &o,
                    |a: Page, b: Page| b.lines() == lines_of(c@) && b.row() == 0 && b.col() == 0
                        && b.same_frame(&a),
                )
                &&& s == App { tabs: s.tabs, status_message: s.status_message, pending: Pending::Idle, ..o }
            },
            Err(_) => {
                &&& s.status_message@ == "Error reading file: "@ + p@
                &&& s == App { status_message: s.status_message, pending: Pending::Idle, ..o }
            },
        },
        _ => s == o,
    }
}

/// How the outcome of a write, remove, directory creation or rename takes
/// the session from `o` to `s`, returning `r`. Every change to the
/// directory is followed by a fresh listing, whether it succeeded or not.
pub open spec fn change_step(o: App, s: App, result: Result<(), String>, r: Request) -> bool {
    let err = "Error: "@ + result->Err_0@;
    match o.pending {
        Pending::Save { path, close_tab } => {
            &&& r is Nothing
            &&& s.pending is Idle
            &&& match result {
                Ok(_) => {
                    &&& s.status_message@ == "Saved to "@ + path@
                    &&& if close_tab {
                        tab_closed(o, s)
                    } else {
                        &&& s.tab_edited(&o, |a: Page, b: Page| b == Page { file_path: Some(path), ..a })
                        &&& s.active_tab_index == o.active_tab_index
                    }
                    &&& s == App {
                        tabs: s.tabs,
                        active_tab_index: s.active_tab_index,
                        status_message: s.status_message,
                        pending: Pending::Idle,
                        ..o
                    }
                },
                Err(_) => {
                    &&& s.status_message@ == err
                    &&& s == App { status_message: s.status_message, pending: Pending::Idle, ..o }
                },
            }
        },
        Pending::SaveAs { path, quit } => match result {
            Ok(_) => {
                &&& s.status_message@ == "Saved to "@ + path@
                &&& s.tab_edited(&o, |a: Page, b: Page| b == Page { file_path: Some(path), ..a })
                &&& s.command_buffer@.len() == 0
                &&& refreshing(s, r)
                &&& s == App {
                    tabs: s.tabs,
                    status_message: s.status_message,
                    command_buffer: s.command_buffer,
                    mode: Mode::Command,
                    should_quit: o.should_quit || quit,
                    path_to_delete: None,
                    path_to_rename: None,
                    pending: s.pending,
                    ..o
                }
            },
            Err(_) => {
                &&& r is Nothing
                &&& s.status_message@ == err
                &&& s == App { status_message: s.status_message, pending: Pending::Idle, ..o }
            },
        },
        Pending::Delete(gone) => {
            &&& refreshing(s, r)
            &&& match result {
                Ok(_) => {
                    &&& s.status_message@ == "Deleted "@ + gone@
                    &&& s.tabs@ == tabs_outside(o.tabs@, gone@)
                    &&& s.active_tab_index == if s.tabs@.len() == 0 {
                        0
                    } else if o.active_tab_index < s.tabs@.len() {
                        o.active_tab_index
                    } else {
                        (s.tabs@.len() - 1) as usize
                    }
                },
                Err(e) => s.status_message@ == "Error deleting: "@ + e@ && s.tabs == o.tabs
                    && s.active_tab_index == o.active_tab_index,
            }
            &&& s == App {
                tabs: s.tabs,
                active_tab_index: s.active_tab_index,
                status_message: s.status_message,
                pending: s.pending,
                ..o
            }
        },
        Pending::CreateFile(p) => {
            &&& refreshing(s, r)
            &&& match result {
                Ok(_) => {
                    &&& s.status_message@ == "Created "@ + p@
                    &&& s.tabs@.len() == o.tabs@.len() + 1
                    &&& s.tabs@.take(o.tabs@.len() as int) == o.tabs@
                    &&& s.tabs@.last().file_path == Some(p)
                    &&& s.tabs@.last().lines() == seq![Seq::<char>::empty()]
                    &&& s == App {
                        tabs: s.tabs,
                        active_tab_index: o.tabs@.len() as usize,
                        status_message: s.status_message,
                        active_pane: ActivePane::Editor,
                        mode: Mode::Edit,
                        path_to_delete: None,
                        path_to_rename: None,
                        pending: s.pending,
                        ..o
                    }
                },
                Err(_) => s.status_message@ == err && s == App {
                    status_message: s.status_message,
                    pending: s.pending,
                    ..o
                },
            }
        },
        Pending::CreateDirectory(p) => {
            &&& refreshing(s, r)
            &&& s.status_message@ == match result {
                Ok(_) => "Created "@ + p@,
                Err(_) => err,
            }
            &&& s == App { status_message: s.status_message, pending: s.pending, ..o }
        },
        Pending::Rename(from, to) => {
            &&& refreshing(s, r)
            &&& match result {
                Ok(_) => {
                    &&& s.status_message@ == "Renamed to "@ + to@
                    &&& s.tabs@ == o.tabs@.map_values(|p: Page| repointed(p, from@, to))
                },
                Err(_) => s.status_message@ == err && s.tabs == o.tabs,
            }
            &&& s == App { tabs: s.tabs, status_message: s.status_message, pending: s.pending, ..o }
        },
        _ => r is Nothing && s == o,
    }
}

/// How the outcome of saving every tab takes the session from `o` to `s`:
/// the failures are reported, and the session ends either way.
pub open spec fn write_all_step(o: App, s: App, results: Vec<Result<(), String>>) -> bool {
    match o.pending {
        Pending::SaveAll(paths) => {
            let fails = failures(views(paths@), results@);
            &&& s.status_message@ == if fails.len() > 0 {
                "Errors saving files: "@ + comma_joined(fails)
            } else {
                "All files saved."@
            }
            &&& s == App {
                status_message: s.status_message,
                should_quit: true,
                pending: Pending::Idle,
                ..o
            }
        },
        _ => s == o,
    }
}

/// The width of the directory tree column: a quarter of the terminal's
/// width, rounded half up.
pub open spec fn tree_width(w: u16) -> int {
    (w + 2) / 4
}

/// The number of decimal digits of `n`.
pub open spec fn digits(n: nat) -> nat
    decreases n,
{
    if n < 10 {
        1
    } else {
        1 + digits(n / 10)
    }
}

/// The name a tab shows: its file's name, or `[No Name]`.
pub open spec fn tab_label(p: Page) -> Seq<char> {
    match p.file_path {
        Some(f) => match path_file_name(f@) {
            Some(n) => n,
            None => "[No Name]"@,
        },
        None => "[No Name]"@,
    }
}

/// The columns of the tab bar before tab `i`: each tab takes its name and a
/// space either side.
pub open spec fn tab_start(tabs: Seq<Page>, i: int) -> int
    decreases i,
{
    if i <= 0 {
        0
    } else {
        tab_start(tabs, i - 1) + tab_label(tabs[i - 1]).len() + 2
    }
}

/// Column `x` of the tab bar lies on tab `i`.
pub open spec fn on_tab(tabs: Seq<Page>, i: int, x: int) -> bool {
    0 <= i < tabs.len() && tab_start(tabs, i) <= x < tab_start(tabs, i + 1)
}

pub(crate) proof fn lemma_tab_start_grows(tabs: Seq<Page>, i: int, j: int)
    requires
        0 <= i <= j,
    ensures
        tab_start(tabs, i) <= tab_start(tabs, j),
    decreases j - i,
{
    if i < j {
        lemma_tab_start_grows(tabs, i, j - 1);
    }
}

/// `a + b`, or the largest `usize` if that is more.
pub open spec fn sat_add(a: int, b: int) -> int {
    if a + b > usize::MAX {
        usize::MAX as int
    } else {
        a + b
    }
}

/// `a - b`, or 0 if that is less.
pub open spec fn sat_sub(a: int, b: int) -> int {
    if a > b {
        a - b
    } else {
        0
    }
}

/// The rows of a pane of a terminal `h` rows high: all but a title row and
/// the status line, and at least one.
pub open spec fn view_rows(h: u16) -> int {
    if h > 2 {
        h - 2
    } else {
        1
    }
}

/// The first of `n` rows in view, `off`, moved only as far as needed to
/// bring row `at` into a view of `v` rows.
pub open spec fn follow(at: int, off: int, v: int) -> int {
    if at < off {
        at
    } else if at >= off + v {
        at - v + 1
    } else {
        off
    }
}

/// A dialog holds the keyboard and the mouse until it is answered.
pub open spec fn in_dialog(m: Mode) -> bool {
    m == Mode::ConfirmDelete || m == Mode::PromptNewFile || m == Mode::PromptNewDirectory || m
        == Mode::PromptRename
}

/// How a mouse event takes the session from `o` to `s` on a terminal `w`
/// columns wide and `h` rows high.
pub open spec fn mouse_step(o: App, s: App, m: MouseInput, w: u16, h: u16) -> bool {
    let t = tree_width(w);
    let col = m.column as int;
    let row = m.row as int;
    let d = o.directory_view;
    let start = t + 1;
    if in_dialog(o.mode) {
        s == o
    } else {
        match m.action {
            MouseAction::ScrollUp => if col < t {
                s == App {
                    directory_view: DirectoryView {
                        scroll_offset: sat_sub(d.scroll_offset as int, 1) as usize,
                        ..d
                    },
                    ..o
                }
            } else {
                &&& s.tab_edited(
                    &o,
                    |a: Page, b: Page| b == Page { scroll_offset: sat_sub(a.scroll_offset as int, 1) as usize, ..a },
                )
                &&& s == App { tabs: s.tabs, ..o }
            },
            MouseAction::ScrollDown => if col < t {
                let n = d.entries@.len() as int;
                let v = view_rows(h);
                s == App {
                    directory_view: DirectoryView {
                        scroll_offset: if n > v {
                            if d.scroll_offset + 1 < n - v { (d.scroll_offset + 1) as usize } else { (n - v) as usize }
                        } else {
                            d.scroll_offset
                        },
                        ..d
                    },
                    ..o
                }
            } else {
                let v = view_rows(h);
                &&& s.tab_edited(
                    &o,
                    |a: Page, b: Page| {
                        let n = a.lines().len() as int;
                        b == Page {
                            scroll_offset: if n > v {
                                if a.scroll_offset + 1 < n - v { (a.scroll_offset + 1) as usize } else { (n - v) as usize }
                            } else {
                                a.scroll_offset
                            },
                            ..a
                        }
                    },
                )
                &&& s == App { tabs: s.tabs, ..o }
            },
            MouseAction::Press => if col < t {
                let n = d.entries@.len() as int;
                let target = sat_sub(row, 1) + d.scroll_offset;
                s == App {
                    active_pane: ActivePane::FileTree,
                    mode: Mode::FileTree,
                    directory_view: DirectoryView {
                        selected_index: if n == 0 {
                            d.selected_index
                        } else if target < n - 1 {
                            target as usize
                        } else {
                            (n - 1) as usize
                        },
                        ..d
                    },
                    ..o
                }
            } else if row == 0 && col >= start && o.tabs@.len() > 0 {
                let x = col - start;
                &&& s == App { active_tab_index: s.active_tab_index, ..o }
                &&& forall|i: int| #[trigger] on_tab(o.tabs@, i, x) ==> s.active_tab_index == i
                &&& (forall|i: int| !#[trigger] on_tab(o.tabs@, i, x)) ==> s.active_tab_index
                    == o.active_tab_index
            } else if row > 0 && col >= start && o.tabs@.len() > 0 {
                &&& s.tab_edited(
                    &o,
                    |a: Page, b: Page| Page::moved_to(
                        a,
                        b,
                        sat_add(row - 1, a.scroll_offset as int),
                        sat_add(
                            sat_sub(col, start + digits(a.lines().len()) + 2 as int),
                            a.horizontal_scroll_offset as int,
                        ),
                    ),
                )
                &&& s == App {
                    tabs: s.tabs,
                    active_pane: ActivePane::Editor,
                    mode: Mode::Edit,
                    ..o
                }
            } else {
                s == o
            },
            MouseAction::Other => s == o,
        }
    }
}

/// How the view follows the cursor, or in the tree the selection, after a
/// key: the first row (and column) in view moves only as far as needed to
/// show it.
pub open spec fn scrolled(o: App, s: App, w: u16, h: u16) -> bool {
    let v = view_rows(h);
    match o.active_pane {
        ActivePane::Editor => {
            &&& s.tab_edited(
                &o,
                |a: Page, b: Page| {
                    let text_w = sat_sub(sat_sub(w - tree_width(w), 1), digits(a.lines().len()) + 2 as int);
                    let cols = if text_w > 0 { text_w } else { 1 };
                    b == Page {
                        scroll_offset: follow(a.row() as int, a.scroll_offset as int, v) as usize,
                        horizontal_scroll_offset: follow(
                            a.col() as int,
                            a.horizontal_scroll_offset as int,
                            cols,
                        ) as usize,
                        ..a
                    }
                },
            )
            &&& s == App { tabs: s.tabs, ..o }
        },
        ActivePane::FileTree => s == App {
            directory_view: DirectoryView {
                scroll_offset: follow(
                    o.directory_view.selected_index as int,
                    o.directory_view.scroll_offset as int,
                    v,
                ) as usize,
                ..o.directory_view
            },
            ..o
        },
    }
}

/// How a key takes the session from `o` to `s`, returning `r`: a dialog
/// takes it if one is open, else the focused pane does, and then the view
/// follows the cursor.
pub open spec fn key_step(o: App, s: App, input: KeyInput, w: u16, h: u16, r: Request) -> bool {
    if o.mode == Mode::ConfirmDelete {
        confirm_step(o, s, input.key, r)
    } else if in_dialog(o.mode) {
        name_prompt_step(o, s, input.key, r)
    } else {
        exists|m: App| #[trigger] pane_step(o, m, input, r) && scrolled(m, s, w, h)
    }
}

/// `c` is `o` with the status message cleared.
pub open spec fn cleared(o: App, c: App) -> bool {
    c.status_message@.len() == 0 && c == App { status_message: c.status_message, ..o }
}

/// How the focused pane takes a key, outside dialogs, from `o` to `m`,
/// returning `r`.
pub open spec fn pane_step(o: App, m: App, input: KeyInput, r: Request) -> bool {
    match o.active_pane {
        ActivePane::Editor => if o.mode == Mode::Find {
            r is Nothing && find_step(o, m, input) && m.same_setting(&o) && m.status_message
                == o.status_message
        } else if o.mode == Mode::PromptSave || o.mode == Mode::PromptSaveAndQuit {
            save_prompt_step(o, m, input.key, r)
        } else {
            editor_step(o, m, input.key, r)
        },
        ActivePane::FileTree => tree_step(o, m, input.key, r),
    }
}

proof fn lemma_digits_bound(x: nat)
    requires
        x >= 1,
    ensures
        digits(x) <= x,
    decreases x,
{
    if x >= 10 {
        lemma_digits_bound(x / 10);
    }
}

/// The number of decimal digits of `n`.
pub fn decimal_width(n: usize) -> (r: usize)
    ensures
        r == digits(n as nat),
{
    let mut m: usize = n;
    let mut d: usize = 1;
    while m >= 10
        invariant
            d + digits(m as nat) == digits(n as nat) + 1,
            m <= n,
        decreases m,
    {
        proof {
            lemma_digits_bound(n as nat);
            assert(digits((m / 10) as nat) >= 1);
            assert(digits(m as nat) >= 2);
        }
        m = m / 10;
        d += 1;
    }
    d
}

/// The length of the name a tab shows.
pub(crate) fn tab_label_len(p: &Page) -> (r: usize)
    ensures
        r == tab_label(*p).len(),
{
    match &p.file_path {
        Some(f) => match file_name_of(f.as_str()) {
            Some(n) => chars_of(n.as_str()).len(),
            None => chars_of("[No Name]").len(),
        },
        None => chars_of("[No Name]").len(),
    }
}

} // verus!
