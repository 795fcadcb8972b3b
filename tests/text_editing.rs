use jot::command::{parse_command, split_words, Command};
use jot::directory::{entry_le, sort_entries, Entry};
use jot::steps::decimal_width;
use jot::page::Page;
use jot::search::find_matches;
use jot::text::{join_lines, split_lines};
use jot::zipper::Zipper;

fn lines_of(p: &Page) -> Vec<String> {
    p.get_all_lines()
}

fn strings(v: &[&str]) -> Vec<String> {
    v.iter().map(|s| s.to_string()).collect()
}

#[test]
fn zipper_starts_empty() {
    let z = Zipper::new();
    assert_eq!(z.to_string(), "");
    assert_eq!(z.cursor_position(), 0);
}

#[test]
fn zipper_from_str_puts_cursor_at_start() {
    let z = Zipper::from_str("héllo");
    assert_eq!(z.to_string(), "héllo");
    assert_eq!(z.cursor_position(), 0);
}

#[test]
fn zipper_insert_and_move() {
    let mut z = Zipper::from_str("ac");
    z.move_right();
    z.insert('b');
    assert_eq!(z.to_string(), "abc");
    assert_eq!(z.cursor_position(), 2);
    z.move_left();
    z.move_left();
    z.move_left();
    assert_eq!(z.cursor_position(), 0);
    z.move_right();
    z.move_right();
    z.move_right();
    z.move_right();
    assert_eq!(z.cursor_position(), 3);
    assert_eq!(z.to_string(), "abc");
}

#[test]
fn zipper_delete_removes_left_of_cursor() {
    let mut z = Zipper::from_str("abc");
    z.delete();
    assert_eq!(z.to_string(), "abc");
    z.set_cursor_position(2);
    z.delete();
    assert_eq!(z.to_string(), "ac");
    assert_eq!(z.cursor_position(), 1);
}

#[test]
fn zipper_set_cursor_clamps() {
    let mut z = Zipper::from_str("abc");
    z.set_cursor_position(10);
    assert_eq!(z.cursor_position(), 3);
    z.set_cursor_position(1);
    assert_eq!(z.cursor_position(), 1);
    z.insert('x');
    assert_eq!(z.to_string(), "axbc");
}

#[test]
fn zipper_type_then_erase_is_empty() {
    let mut z = Zipper::new();
    for c in "hello wörld".chars() {
        z.insert(c);
    }
    z.move_left();
    z.move_left();
    z.move_right();
    z.move_right();
    for _ in 0.."hello wörld".chars().count() {
        z.delete();
    }
    assert_eq!(z.to_string(), "");
    assert_eq!(z.cursor_position(), 0);
}

#[test]
fn split_lines_at_every_line_feed() {
    assert_eq!(split_lines(""), strings(&[""]));
    assert_eq!(split_lines("a\nb"), strings(&["a", "b"]));
    assert_eq!(split_lines("a\r\nb\n"), strings(&["a\r", "b", ""]));
    assert_eq!(split_lines("\n\nx"), strings(&["", "", "x"]));
    assert_eq!(split_lines("x\r"), strings(&["x\r"]));
    assert_eq!(split_lines("\n"), strings(&["", ""]));
}

#[test]
fn join_lines_puts_line_feeds_between() {
    assert_eq!(join_lines(&strings(&["a", "", "b"])), "a\n\nb");
    assert_eq!(join_lines(&strings(&["only"])), "only");
    assert_eq!(join_lines(&Vec::new()), "");
}

#[test]
fn page_new_is_one_empty_line() {
    let p = Page::new();
    assert_eq!(lines_of(&p), strings(&[""]));
    assert_eq!(p.cursor_row(), 0);
    assert!(p.file_path.is_none());
}

#[test]
fn page_load_keeps_all_lines() {
    let mut p = Page::new();
    p.load_from_string("one\ntwo\nthree");
    assert_eq!(lines_of(&p), strings(&["one", "two", "three"]));
    assert_eq!(p.cursor_row(), 0);
    p.load_from_string("");
    assert_eq!(lines_of(&p), strings(&[""]));
}

#[test]
fn page_from_unreadable_file_is_empty() {
    let p = Page::from_file(Some("missing.txt".to_string()), None);
    assert_eq!(lines_of(&p), strings(&[""]));
    assert_eq!(p.file_path, Some("missing.txt".to_string()));
}

#[test]
fn page_vertical_moves_clamp_column() {
    let mut p = Page::from_file(None, Some("long line\nab\nlonger line"));
    p.current.set_cursor_position(6);
    p.move_down();
    assert_eq!(p.cursor_row(), 1);
    assert_eq!(p.current.cursor_position(), 2);
    p.move_down();
    assert_eq!(p.cursor_row(), 2);
    assert_eq!(p.current.cursor_position(), 2);
    p.move_down();
    assert_eq!(p.cursor_row(), 2);
    p.move_up();
    p.move_up();
    p.move_up();
    assert_eq!(p.cursor_row(), 0);
    assert_eq!(lines_of(&p), strings(&["long line", "ab", "longer line"]));
}

#[test]
fn page_insert_newline_splits_at_cursor() {
    let mut p = Page::from_file(None, Some("héllo\nworld"));
    p.current.set_cursor_position(2);
    p.insert_newline();
    assert_eq!(lines_of(&p), strings(&["hé", "llo", "world"]));
    assert_eq!(p.cursor_row(), 1);
    assert_eq!(p.current.cursor_position(), 0);
}

#[test]
fn page_delete_at_line_start_joins_lines() {
    let mut p = Page::from_file(None, Some("abc\ndef"));
    p.move_down();
    p.current.set_cursor_position(0);
    p.delete();
    assert_eq!(lines_of(&p), strings(&["abcdef"]));
    assert_eq!(p.cursor_row(), 0);
    assert_eq!(p.current.cursor_position(), 3);
    p.delete();
    assert_eq!(lines_of(&p), strings(&["abdef"]));
}

#[test]
fn page_delete_at_document_start_does_nothing() {
    let mut p = Page::from_file(None, Some("abc"));
    p.delete();
    assert_eq!(lines_of(&p), strings(&["abc"]));
}

#[test]
fn page_newline_then_delete_restores_line() {
    let mut p = Page::from_file(None, Some("first\nsplit here\nlast"));
    p.move_cursor_to(1, 5);
    p.insert_newline();
    assert_eq!(lines_of(&p), strings(&["first", "split", " here", "last"]));
    p.delete();
    assert_eq!(lines_of(&p), strings(&["first", "split here", "last"]));
    assert_eq!(p.cursor_row(), 1);
    assert_eq!(p.current.cursor_position(), 5);
}

#[test]
fn page_move_cursor_to_keeps_document() {
    let mut p = Page::from_file(None, Some("a\nbb\nccc"));
    p.move_cursor_to(1, 1);
    assert_eq!(lines_of(&p), strings(&["a", "bb", "ccc"]));
    assert_eq!(p.cursor_row(), 1);
    assert_eq!(p.current.cursor_position(), 1);
    p.move_cursor_to(9, 9);
    assert_eq!(p.cursor_row(), 2);
    assert_eq!(p.current.cursor_position(), 3);
    assert_eq!(lines_of(&p), strings(&["a", "bb", "ccc"]));
}

#[test]
fn page_save_then_load_round_trip() {
    let p = Page::from_file(None, Some("x\n\ny\r\nz"));
    assert_eq!(lines_of(&p), strings(&["x", "", "y\r", "z"]));
    let saved = p.contents();
    assert_eq!(saved, "x\n\ny\r\nz");
    let q = Page::from_file(None, Some(saved.as_str()));
    assert_eq!(lines_of(&q), lines_of(&p));
}

#[test]
fn page_save_then_load_keeps_trailing_empty_line() {
    let mut p = Page::from_file(None, Some("a"));
    p.current.set_cursor_position(1);
    p.insert_newline();
    assert_eq!(lines_of(&p), strings(&["a", ""]));
    let saved = p.contents();
    assert_eq!(saved, "a\n");
    let mut q = Page::new();
    q.load_from_string(saved.as_str());
    assert_eq!(lines_of(&q), strings(&["a", ""]));
}

#[test]
fn find_matches_row_major_all_occurrences() {
    let lines = strings(&["foobar", "xfoo"]);
    assert_eq!(find_matches(&lines, "foo"), vec![(0, 0), (1, 1)]);
    assert_eq!(find_matches(&strings(&["aaaa"]), "aa"), vec![(0, 0), (0, 1), (0, 2)]);
    assert_eq!(find_matches(&strings(&["aaa", "", "a"]), "aa"), vec![(0, 0), (0, 1)]);
    assert_eq!(find_matches(&lines, ""), vec![]);
    assert_eq!(find_matches(&lines, "zzz"), vec![]);
}

#[test]
fn split_words_on_white_space() {
    assert_eq!(split_words("  w   report.txt \t"), strings(&["w", "report.txt"]));
    assert_eq!(split_words(""), Vec::<String>::new());
}

#[test]
fn parse_command_names() {
    assert!(matches!(parse_command("find"), Command::Find));
    assert!(matches!(parse_command("q"), Command::Quit));
    assert!(matches!(parse_command("exit"), Command::Exit));
    assert!(matches!(parse_command("wx"), Command::SaveAllAndExit));
    assert!(matches!(parse_command("help"), Command::Help));
    assert!(matches!(parse_command("r"), Command::Revert));
    assert!(matches!(parse_command("w"), Command::Write(None)));
    match parse_command("write out.txt extra") {
        Command::Write(Some(p)) => assert_eq!(p, "out.txt"),
        _ => panic!("expected a write"),
    }
    match parse_command("wq a.txt") {
        Command::WriteAndClose(Some(p)) => assert_eq!(p, "a.txt"),
        _ => panic!("expected a write and close"),
    }
    assert!(matches!(parse_command("bogus"), Command::Unknown));
    assert!(matches!(parse_command(""), Command::Unknown));
}

#[test]
fn decimal_width_counts_digits() {
    assert_eq!(decimal_width(0), 1);
    assert_eq!(decimal_width(9), 1);
    assert_eq!(decimal_width(10), 2);
    assert_eq!(decimal_width(12345), 5);
    assert_eq!(decimal_width(usize::MAX), usize::MAX.to_string().len());
}

#[test]
fn entry_order_folds_ascii_case_only() {
    let e = |n: &str, d: bool| Entry { name: n.to_string(), path: format!("/{}", n), is_dir: d };
    assert!(entry_le(&e("B", true), &e("a", false)));
    assert!(!entry_le(&e("a", false), &e("B", true)));
    assert!(entry_le(&e("abc", false), &e("ABD", false)));
    assert!(entry_le(&e("ab", false), &e("AB", false)));
    assert!(entry_le(&e("AB", false), &e("ab", false)));
    assert!(entry_le(&e("a", false), &e("ab", false)));
    assert!(!entry_le(&e("éa", false), &e("Éa", false)));
    let sorted = sort_entries(vec![e("b", false), e("A", false), e("a", false), e("c", true)]);
    let names: Vec<&str> = sorted.iter().map(|x| x.name.as_str()).collect();
    assert_eq!(names, vec!["c", "A", "a", "b"]);
}
