use jot::directory::{DirectoryView, Entry};
use jot::page::Page;
use jot::input::{Event, Key, KeyInput, Modifiers, MouseAction, MouseInput};
use jot::session::{ActivePane, App, Mode, Pending, Request};

fn entry(dir: &str, name: &str, is_dir: bool) -> Entry {
    Entry { name: name.to_string(), path: format!("{}/{}", dir, name), is_dir }
}

fn key(k: Key) -> Event {
    Event::Key(KeyInput { key: k, modifiers: Modifiers::Plain })
}

fn shift(k: Key) -> Event {
    Event::Key(KeyInput { key: k, modifiers: Modifiers::Shift })
}

fn type_text(app: &mut App, s: &str) {
    for c in s.chars() {
        assert_eq!(app.handle_event(key(Key::Char(c)), 80, 24), Request::Nothing);
    }
}

fn press(app: &mut App, k: Key) -> Request {
    app.handle_event(key(k), 80, 24)
}

fn page_with(path: Option<&str>, text: &str) -> Page {
    Page::from_file(path.map(|p| p.to_string()), Some(text))
}

fn app_in(dir: &str, listing: Vec<Entry>, initial: Option<Page>) -> App {
    App::new(DirectoryView::new(dir.to_string(), listing), initial)
}

#[test]
fn directory_entries_sorted_directories_first() {
    let d = DirectoryView::new(
        "/w".to_string(),
        vec![
            entry("/w", "zeta.txt", false),
            entry("/w", "Beta", true),
            entry("/w", "alpha.txt", false),
            entry("/w", "Alpha.md", false),
            entry("/w", "src", true),
            entry("/w", "apple", true),
        ],
    );
    let names: Vec<&str> = d.entries.iter().map(|e| e.name.as_str()).collect();
    assert_eq!(names, vec!["apple", "Beta", "src", "Alpha.md", "alpha.txt", "zeta.txt"]);
    assert_eq!(d.selected_index, 0);
}

#[test]
fn directory_selection_saturates() {
    let mut d = DirectoryView::new("/w".to_string(), vec![entry("/w", "a", false), entry("/w", "b", false)]);
    d.move_up();
    assert_eq!(d.selected_index, 0);
    d.move_down();
    d.move_down();
    assert_eq!(d.selected_index, 1);
    let mut e = DirectoryView::new("/w".to_string(), vec![]);
    e.move_down();
    assert_eq!(e.selected_index, 0);
}

#[test]
fn start_without_file_shows_tree() {
    let app = app_in("/empty", vec![], None);
    assert_eq!(app.tabs.len(), 0);
    assert_eq!(app.mode, Mode::FileTree);
    assert_eq!(app.active_pane, ActivePane::FileTree);
    assert!(app.get_active_page().is_none());
}

#[test]
fn start_with_file_shows_editor() {
    let app = app_in("/w", vec![], Some(page_with(Some("/w/a.txt"), "hi")));
    assert_eq!(app.tabs.len(), 1);
    assert_eq!(app.mode, Mode::Edit);
    assert_eq!(app.active_pane, ActivePane::Editor);
}

#[test]
fn write_command_saves_to_named_path() {
    let mut app = app_in("/w", vec![], Some(Page::new()));
    type_text(&mut app, "hello");
    press(&mut app, Key::Esc);
    assert_eq!(app.mode, Mode::Command);
    type_text(&mut app, "w report.txt");
    let r = press(&mut app, Key::Enter);
    assert_eq!(r, Request::WriteFile("report.txt".to_string(), "hello".to_string()));
    assert_eq!(app.complete_change(Ok(())), Request::Nothing);
    assert_eq!(app.status_message, "Saved to report.txt");
    assert_eq!(app.tabs[0].file_path, Some("report.txt".to_string()));
    assert_eq!(app.command_buffer, "");
}

#[test]
fn write_without_path_asks_for_name() {
    let mut app = app_in("/w", vec![], Some(Page::new()));
    type_text(&mut app, "x");
    press(&mut app, Key::Esc);
    type_text(&mut app, "w");
    assert_eq!(press(&mut app, Key::Enter), Request::Nothing);
    assert_eq!(app.mode, Mode::PromptSave);
    type_text(&mut app, "new.txt");
    let r = press(&mut app, Key::Enter);
    assert_eq!(r, Request::WriteFile("/w/new.txt".to_string(), "x".to_string()));
    let r = app.complete_change(Ok(()));
    assert_eq!(r, Request::ListDirectory("/w".to_string()));
    assert_eq!(app.mode, Mode::Command);
    assert_eq!(app.status_message, "Saved to /w/new.txt");
    assert_eq!(app.tabs[0].file_path, Some("/w/new.txt".to_string()));
    assert_eq!(app.complete_listing(Ok(vec![entry("/w", "new.txt", false)])), Request::Nothing);
    assert_eq!(app.directory_view.entries.len(), 1);
}

#[test]
fn failed_save_as_keeps_prompt() {
    let mut app = app_in("/w", vec![], Some(Page::new()));
    press(&mut app, Key::Esc);
    type_text(&mut app, "w");
    press(&mut app, Key::Enter);
    type_text(&mut app, "f.txt");
    press(&mut app, Key::Enter);
    assert_eq!(app.complete_change(Err("denied".to_string())), Request::Nothing);
    assert_eq!(app.mode, Mode::PromptSave);
    assert_eq!(app.status_message, "Error: denied");
    assert_eq!(app.command_buffer, "f.txt");
    assert_eq!(press(&mut app, Key::Esc), Request::Nothing);
    assert_eq!(app.mode, Mode::Command);
    assert_eq!(app.status_message, "Save cancelled.");
}

#[test]
fn confirmed_delete_closes_tab_and_refreshes() {
    let listing = vec![entry("/w", "notes.txt", false), entry("/w", "other.txt", false)];
    let mut app = app_in("/w", listing, Some(page_with(Some("/w/notes.txt"), "n")));
    press(&mut app, Key::Tab);
    assert_eq!(app.mode, Mode::FileTree);
    assert_eq!(app.directory_view.entries[app.directory_view.selected_index].name, "notes.txt");
    type_text(&mut app, "d");
    assert_eq!(press(&mut app, Key::Enter), Request::Nothing);
    assert_eq!(app.mode, Mode::ConfirmDelete);
    assert_eq!(app.path_to_delete, Some("/w/notes.txt".to_string()));
    let r = press(&mut app, Key::Char('y'));
    assert_eq!(r, Request::Remove("/w/notes.txt".to_string()));
    assert_eq!(app.path_to_delete, None);
    let r = app.complete_change(Ok(()));
    assert_eq!(r, Request::ListDirectory("/w".to_string()));
    assert_eq!(app.tabs.len(), 0);
    assert_eq!(app.status_message, "Deleted /w/notes.txt");
    app.complete_listing(Ok(vec![entry("/w", "other.txt", false)]));
    assert!(app.directory_view.entries.iter().all(|e| e.name != "notes.txt"));
    assert_eq!(app.mode, Mode::FileTree);
}

#[test]
fn deleting_directory_closes_tabs_inside_it() {
    let listing = vec![entry("/w", "sub", true)];
    let mut app = app_in("/w", listing, Some(page_with(Some("/w/sub/a.txt"), "a")));
    app.tabs.push(page_with(Some("/w/subway.txt"), "b"));
    app.tabs.push(page_with(Some("/w/sub/deep/c.txt"), "c"));
    press(&mut app, Key::Tab);
    type_text(&mut app, "d");
    press(&mut app, Key::Enter);
    press(&mut app, Key::Char('Y'));
    app.complete_change(Ok(()));
    assert_eq!(app.tabs.len(), 1);
    assert_eq!(app.tabs[0].file_path, Some("/w/subway.txt".to_string()));
    assert_eq!(app.active_tab_index, 0);
}

#[test]
fn failed_delete_reports_and_keeps_tabs() {
    let mut app = app_in("/w", vec![entry("/w", "a.txt", false)], Some(page_with(Some("/w/a.txt"), "")));
    press(&mut app, Key::Tab);
    type_text(&mut app, "d");
    press(&mut app, Key::Enter);
    press(&mut app, Key::Char('y'));
    let r = app.complete_change(Err("busy".to_string()));
    assert_eq!(r, Request::ListDirectory("/w".to_string()));
    assert_eq!(app.status_message, "Error deleting: busy");
    assert_eq!(app.tabs.len(), 1);
}

#[test]
fn delete_can_be_cancelled() {
    let mut app = app_in("/w", vec![entry("/w", "a.txt", false)], None);
    type_text(&mut app, "d");
    press(&mut app, Key::Enter);
    assert_eq!(app.mode, Mode::ConfirmDelete);
    assert_eq!(press(&mut app, Key::Char('n')), Request::Nothing);
    assert_eq!(app.mode, Mode::FileTree);
    assert_eq!(app.path_to_delete, None);
    assert_eq!(app.status_message, "Delete cancelled.");
}

#[test]
fn find_jumps_and_wraps() {
    let mut app = app_in("/w", vec![], Some(page_with(None, "foobar\nxfoo")));
    press(&mut app, Key::Esc);
    type_text(&mut app, "f");
    press(&mut app, Key::Enter);
    assert_eq!(app.mode, Mode::Find);
    type_text(&mut app, "foo");
    assert_eq!(app.find_matches, vec![(0, 0), (1, 1)]);
    let p = app.get_active_page().unwrap();
    assert_eq!((p.cursor_row(), p.current.cursor_position()), (0, 0));
    press(&mut app, Key::Enter);
    assert!(app.find_navigation_active);
    press(&mut app, Key::Char('n'));
    let p = app.get_active_page().unwrap();
    assert_eq!((p.cursor_row(), p.current.cursor_position()), (1, 1));
    press(&mut app, Key::Char('n'));
    let p = app.get_active_page().unwrap();
    assert_eq!((p.cursor_row(), p.current.cursor_position()), (0, 0));
    app.handle_event(shift(Key::Char('N')), 80, 24);
    let p = app.get_active_page().unwrap();
    assert_eq!((p.cursor_row(), p.current.cursor_position()), (1, 1));
    press(&mut app, Key::Esc);
    assert_eq!(app.mode, Mode::Command);
    assert!(app.find_matches.is_empty());
    assert_eq!(app.find_query, "");
}

#[test]
fn find_typing_after_navigation_extends_query() {
    let mut app = app_in("/w", vec![], Some(page_with(None, "abc abd")));
    press(&mut app, Key::Esc);
    type_text(&mut app, "find");
    press(&mut app, Key::Enter);
    type_text(&mut app, "ab");
    assert_eq!(app.find_matches, vec![(0, 0), (0, 4)]);
    press(&mut app, Key::Enter);
    assert!(app.find_navigation_active);
    type_text(&mut app, "d");
    assert_eq!(app.find_query, "abd");
    assert!(!app.find_navigation_active);
    assert_eq!(app.find_matches, vec![(0, 4)]);
    assert_eq!(app.tabs[0].current.cursor_position(), 4);
    press(&mut app, Key::Backspace);
    assert_eq!(app.find_query, "ab");
    assert_eq!(app.find_matches, vec![(0, 0), (0, 4)]);
    assert_eq!(app.tabs[0].current.cursor_position(), 0);
    press(&mut app, Key::Backspace);
    press(&mut app, Key::Backspace);
    assert_eq!(app.find_query, "");
    assert!(app.find_matches.is_empty());
    assert_eq!(app.tabs[0].current.cursor_position(), 0);
}

#[test]
fn unknown_commands_are_reported() {
    let mut app = app_in("/w", vec![], None);
    press(&mut app, Key::Esc);
    type_text(&mut app, "zz top");
    assert_eq!(press(&mut app, Key::Enter), Request::Nothing);
    assert_eq!(app.status_message, "Unknown command: zz top");
    press(&mut app, Key::Tab);
    type_text(&mut app, "xx");
    press(&mut app, Key::Enter);
    assert_eq!(app.status_message, "Unknown command: xx");
}

#[test]
fn status_message_cleared_by_next_event() {
    let mut app = app_in("/w", vec![], None);
    press(&mut app, Key::Esc);
    type_text(&mut app, "h");
    press(&mut app, Key::Enter);
    assert!(app.status_message.starts_with("Help"));
    press(&mut app, Key::Other);
    assert_eq!(app.status_message, "");
}

#[test]
fn quit_closes_active_tab_and_clamps() {
    let mut app = app_in("/w", vec![], Some(page_with(Some("/w/a"), "a")));
    app.tabs.push(page_with(Some("/w/b"), "b"));
    app.active_tab_index = 1;
    press(&mut app, Key::Esc);
    type_text(&mut app, "q");
    press(&mut app, Key::Enter);
    assert_eq!(app.tabs.len(), 1);
    assert_eq!(app.active_tab_index, 0);
    type_text(&mut app, "quit");
    press(&mut app, Key::Enter);
    assert_eq!(app.tabs.len(), 0);
    assert_eq!(app.mode, Mode::Command);
    type_text(&mut app, "x");
    press(&mut app, Key::Enter);
    assert!(app.should_quit);
}

#[test]
fn write_and_close_closes_only_after_success() {
    let mut app = app_in("/w", vec![], Some(page_with(Some("/w/a"), "a")));
    press(&mut app, Key::Esc);
    type_text(&mut app, "wq");
    let r = press(&mut app, Key::Enter);
    assert_eq!(r, Request::WriteFile("/w/a".to_string(), "a".to_string()));
    app.complete_change(Err("full".to_string()));
    assert_eq!(app.tabs.len(), 1);
    assert_eq!(app.status_message, "Error: full");
    type_text(&mut app, "wq");
    press(&mut app, Key::Enter);
    app.complete_change(Ok(()));
    assert_eq!(app.tabs.len(), 0);
    assert_eq!(app.status_message, "Saved to /w/a");
}

#[test]
fn save_all_reports_failures_and_quits() {
    let mut app = app_in("/w", vec![], Some(page_with(Some("/w/a"), "a")));
    app.tabs.push(Page::new());
    app.tabs.push(page_with(Some("/w/c"), "c1\nc2"));
    press(&mut app, Key::Esc);
    type_text(&mut app, "wx");
    let r = press(&mut app, Key::Enter);
    assert_eq!(
        r,
        Request::WriteFiles(vec![
            ("/w/a".to_string(), "a".to_string()),
            ("/w/c".to_string(), "c1\nc2".to_string()),
        ])
    );
    app.complete_write_all(vec![Err("e1".to_string()), Err("e2".to_string())]);
    assert!(app.should_quit);
    assert_eq!(app.status_message, "Errors saving files: /w/a: e1, /w/c: e2");
}

#[test]
fn save_all_without_failures() {
    let mut app = app_in("/w", vec![], Some(page_with(Some("/w/a"), "a")));
    press(&mut app, Key::Esc);
    type_text(&mut app, "wx");
    press(&mut app, Key::Enter);
    app.complete_write_all(vec![Ok(())]);
    assert_eq!(app.status_message, "All files saved.");
    assert!(app.should_quit);
}

#[test]
fn revert_reloads_or_reports() {
    let mut app = app_in("/w", vec![], Some(page_with(Some("/w/a"), "old")));
    type_text(&mut app, "edit ");
    press(&mut app, Key::Esc);
    type_text(&mut app, "r");
    let r = press(&mut app, Key::Enter);
    assert_eq!(r, Request::ReadFile("/w/a".to_string()));
    app.complete_read(Ok("saved\ntext".to_string()));
    assert_eq!(app.tabs[0].get_all_lines(), vec!["saved".to_string(), "text".to_string()]);
    assert_eq!(app.status_message, "Reverted to saved version.");
    type_text(&mut app, "revert");
    press(&mut app, Key::Enter);
    app.complete_read(Err("gone".to_string()));
    assert_eq!(app.status_message, "Error reading file: /w/a");
    let mut bare = app_in("/w", vec![], Some(Page::new()));
    press(&mut bare, Key::Esc);
    type_text(&mut bare, "r");
    assert_eq!(press(&mut bare, Key::Enter), Request::Nothing);
    assert_eq!(bare.status_message, "No file to revert from.");
}

#[test]
fn opening_files_reuses_tabs() {
    let listing = vec![entry("/w", "a.txt", false), entry("/w", "b.txt", false)];
    let mut app = app_in("/w", listing, None);
    let r = press(&mut app, Key::Enter);
    assert_eq!(r, Request::ReadFile("/w/a.txt".to_string()));
    assert_eq!(app.pending, Pending::OpenFile("/w/a.txt".to_string()));
    app.complete_read(Ok("alpha".to_string()));
    assert_eq!(app.tabs.len(), 1);
    assert_eq!(app.mode, Mode::Edit);
    assert_eq!(app.active_pane, ActivePane::Editor);
    press(&mut app, Key::Tab);
    press(&mut app, Key::Down);
    press(&mut app, Key::Right);
    app.complete_read(Err("unreadable".to_string()));
    assert_eq!(app.tabs.len(), 2);
    assert_eq!(app.tabs[1].get_all_lines(), vec!["".to_string()]);
    assert_eq!(app.active_tab_index, 1);
    press(&mut app, Key::Tab);
    press(&mut app, Key::Up);
    assert_eq!(press(&mut app, Key::Enter), Request::Nothing);
    assert_eq!(app.active_tab_index, 0);
    assert_eq!(app.tabs.len(), 2);
}

#[test]
fn entering_directories_and_going_up() {
    let mut app = app_in("/w/sub", vec![entry("/w/sub", "inner", true)], None);
    let r = press(&mut app, Key::Left);
    assert_eq!(r, Request::ListDirectory("/w".to_string()));
    app.complete_listing(Ok(vec![entry("/w", "sub", true)]));
    assert_eq!(app.directory_view.path, "/w");
    let r = press(&mut app, Key::Enter);
    assert_eq!(r, Request::ListDirectory("/w/sub".to_string()));
    let r = app.complete_listing(Err("denied".to_string()));
    assert_eq!(app.status_message, "Error: denied");
    assert_eq!(r, Request::ListDirectory("/w".to_string()));
    let r = press(&mut app, Key::Left);
    assert_eq!(r, Request::ListDirectory("/".to_string()));
    app.complete_listing(Err("no".to_string()));
    assert_eq!(app.status_message, "Cannot access parent directory.");
    assert_eq!(app.directory_view.path, "/w");
}

#[test]
fn new_file_and_directory_prompts() {
    let mut app = app_in("/w", vec![], None);
    type_text(&mut app, "nf");
    press(&mut app, Key::Enter);
    assert_eq!(app.mode, Mode::PromptNewFile);
    type_text(&mut app, "n.txt");
    let r = press(&mut app, Key::Enter);
    assert_eq!(r, Request::WriteFile("/w/n.txt".to_string(), String::new()));
    let r = app.complete_change(Ok(()));
    assert_eq!(r, Request::ListDirectory("/w".to_string()));
    assert_eq!(app.status_message, "Created /w/n.txt");
    assert_eq!(app.mode, Mode::Edit);
    assert_eq!(app.tabs[0].file_path, Some("/w/n.txt".to_string()));
    app.complete_listing(Ok(vec![entry("/w", "n.txt", false)]));
    press(&mut app, Key::Tab);
    type_text(&mut app, "nd");
    press(&mut app, Key::Enter);
    assert_eq!(app.mode, Mode::PromptNewDirectory);
    type_text(&mut app, "dir");
    assert_eq!(press(&mut app, Key::Enter), Request::CreateDirectory("/w/dir".to_string()));
    app.complete_change(Err("exists".to_string()));
    assert_eq!(app.status_message, "Error: exists");
    assert_eq!(app.mode, Mode::FileTree);
    type_text(&mut app, "nf");
    press(&mut app, Key::Enter);
    type_text(&mut app, "zz");
    press(&mut app, Key::Esc);
    assert_eq!(app.mode, Mode::FileTree);
    assert_eq!(app.status_message, "Cancelled.");
    assert_eq!(app.command_buffer, "");
}

#[test]
fn rename_repoints_open_tabs() {
    let listing = vec![entry("/w", "old.txt", false)];
    let mut app = app_in("/w", listing, Some(page_with(Some("/w/old.txt"), "o")));
    press(&mut app, Key::Tab);
    type_text(&mut app, "rn");
    press(&mut app, Key::Enter);
    assert_eq!(app.mode, Mode::PromptRename);
    assert_eq!(app.path_to_rename, Some("/w/old.txt".to_string()));
    type_text(&mut app, "new.txt");
    let r = press(&mut app, Key::Enter);
    assert_eq!(r, Request::Rename("/w/old.txt".to_string(), "/w/new.txt".to_string()));
    assert_eq!(app.path_to_rename, None);
    app.complete_change(Ok(()));
    assert_eq!(app.tabs.len(), 1);
    assert_eq!(app.tabs[0].file_path, Some("/w/new.txt".to_string()));
    assert_eq!(app.status_message, "Renamed to /w/new.txt");
}

#[test]
fn editor_keys_edit_active_page() {
    let mut app = app_in("/w", vec![], Some(page_with(None, "ab\ncd")));
    type_text(&mut app, "x");
    press(&mut app, Key::Enter);
    press(&mut app, Key::Down);
    press(&mut app, Key::Right);
    press(&mut app, Key::Backspace);
    press(&mut app, Key::Up);
    press(&mut app, Key::Left);
    assert_eq!(app.tabs[0].get_all_lines(), vec!["x".to_string(), "ab".to_string(), "d".to_string()]);
    assert_eq!(app.tabs[0].cursor_row(), 1);
    assert_eq!(app.tabs[0].current.cursor_position(), 0);
}

#[test]
fn command_mode_arrows_cycle_tabs() {
    let mut app = app_in("/w", vec![], Some(Page::new()));
    app.tabs.push(Page::new());
    app.tabs.push(Page::new());
    press(&mut app, Key::Esc);
    press(&mut app, Key::Left);
    assert_eq!(app.active_tab_index, 2);
    press(&mut app, Key::Right);
    assert_eq!(app.active_tab_index, 0);
    press(&mut app, Key::Esc);
    assert_eq!(app.mode, Mode::Edit);
}

#[test]
fn tab_from_tree_without_tabs_goes_to_command() {
    let mut app = app_in("/w", vec![], None);
    press(&mut app, Key::Tab);
    assert_eq!(app.active_pane, ActivePane::Editor);
    assert_eq!(app.mode, Mode::Command);
    press(&mut app, Key::Esc);
    assert_eq!(app.mode, Mode::Command);
    press(&mut app, Key::Tab);
    assert_eq!(app.mode, Mode::FileTree);
    press(&mut app, Key::Esc);
    assert_eq!(app.mode, Mode::Command);
}

#[test]
fn mouse_clicks_select_entries_tabs_and_text() {
    let listing = vec![entry("/w", "a", false), entry("/w", "b", false), entry("/w", "c", false)];
    let mut app = app_in("/w", listing, Some(page_with(Some("/w/a.txt"), "hello\nworld")));
    app.tabs.push(page_with(Some("/w/bb.txt"), "x"));
    // width 80: tree is 20 columns, the editor starts at column 21
    app.handle_event(Event::Mouse(MouseInput { action: MouseAction::Press, column: 3, row: 2 }), 80, 24);
    assert_eq!(app.mode, Mode::FileTree);
    assert_eq!(app.directory_view.selected_index, 1);
    app.handle_event(Event::Mouse(MouseInput { action: MouseAction::Press, column: 5, row: 20 }), 80, 24);
    assert_eq!(app.directory_view.selected_index, 2);
    // tab bar: " a.txt " spans 21..28, " bb.txt " spans 28..36
    app.handle_event(Event::Mouse(MouseInput { action: MouseAction::Press, column: 30, row: 0 }), 80, 24);
    assert_eq!(app.active_tab_index, 1);
    app.handle_event(Event::Mouse(MouseInput { action: MouseAction::Press, column: 21, row: 0 }), 80, 24);
    assert_eq!(app.active_tab_index, 0);
    // editor text: gutter of 1 digit + 2 after column 21, so column 27 is text column 3
    app.handle_event(Event::Mouse(MouseInput { action: MouseAction::Press, column: 27, row: 2 }), 80, 24);
    assert_eq!(app.mode, Mode::Edit);
    assert_eq!(app.active_pane, ActivePane::Editor);
    assert_eq!(app.tabs[0].cursor_row(), 1);
    assert_eq!(app.tabs[0].current.cursor_position(), 3);
}

#[test]
fn mouse_click_counts_horizontal_scroll() {
    let mut app = app_in("/w", vec![], Some(page_with(None, "abcdefghij
xyz")));
    app.tabs[0].horizontal_scroll_offset = 4;
    // the text starts at column 21 + 1 digit + 2 = 24; column 26 is the third shown character
    app.handle_event(Event::Mouse(MouseInput { action: MouseAction::Press, column: 26, row: 1 }), 80, 24);
    assert_eq!(app.tabs[0].cursor_row(), 0);
    assert_eq!(app.tabs[0].current.cursor_position(), 6);
    app.handle_event(Event::Mouse(MouseInput { action: MouseAction::Press, column: 26, row: 2 }), 80, 24);
    assert_eq!(app.tabs[0].cursor_row(), 1);
    assert_eq!(app.tabs[0].current.cursor_position(), 3);
}

#[test]
fn mouse_scrolls_tree_and_editor() {
    let listing: Vec<Entry> = (0..30).map(|i| entry("/w", &format!("f{:02}", i), false)).collect();
    let text: Vec<String> = (0..30).map(|i| format!("line {}", i)).collect();
    let mut app = app_in("/w", listing, Some(page_with(None, &text.join("\n"))));
    for _ in 0..20 {
        app.handle_event(Event::Mouse(MouseInput { action: MouseAction::ScrollDown, column: 0, row: 1 }), 80, 24);
    }
    assert_eq!(app.directory_view.scroll_offset, 8);
    app.handle_event(Event::Mouse(MouseInput { action: MouseAction::ScrollUp, column: 0, row: 1 }), 80, 24);
    assert_eq!(app.directory_view.scroll_offset, 7);
    app.handle_event(Event::Mouse(MouseInput { action: MouseAction::ScrollDown, column: 40, row: 1 }), 80, 24);
    assert_eq!(app.tabs[0].scroll_offset, 1);
    app.handle_event(Event::Mouse(MouseInput { action: MouseAction::ScrollUp, column: 40, row: 1 }), 80, 24);
    app.handle_event(Event::Mouse(MouseInput { action: MouseAction::ScrollUp, column: 40, row: 1 }), 80, 24);
    assert_eq!(app.tabs[0].scroll_offset, 0);
}

#[test]
fn view_follows_cursor() {
    let text: Vec<String> = (0..40).map(|i| format!("{}", i)).collect();
    let mut app = app_in("/w", vec![], Some(page_with(None, &text.join("\n"))));
    for _ in 0..25 {
        press(&mut app, Key::Down);
    }
    assert_eq!(app.tabs[0].cursor_row(), 25);
    assert_eq!(app.tabs[0].scroll_offset, 4);
    for _ in 0..25 {
        press(&mut app, Key::Up);
    }
    assert_eq!(app.tabs[0].scroll_offset, 0);
}
