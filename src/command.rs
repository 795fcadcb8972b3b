//! The editor's command line: whitespace-separated words, a command name and
//! an optional argument.

use vstd::prelude::*;
use crate::text::{chars_of, string_of_range, views};

verus! {

/// `c` is white space in the Unicode sense.
pub open spec fn is_space(c: char) -> bool {
    ('\u{9}' <= c && c <= '\u{d}') || c == ' ' || c == '\u{85}' || c == '\u{a0}' || c
        == '\u{1680}' || ('\u{2000}' <= c && c <= '\u{200a}') || c == '\u{2028}' || c
        == '\u{2029}' || c == '\u{202f}' || c == '\u{205f}' || c == '\u{3000}'
}

/// Whether `c` is white space in the Unicode sense.
pub fn space(c: char) -> (r: bool)
    ensures
        r == is_space(c),
{
    ('\u{9}' <= c && c <= '\u{d}') || c == ' ' || c == '\u{85}' || c == '\u{a0}' || c
        == '\u{1680}' || ('\u{2000}' <= c && c <= '\u{200a}') || c == '\u{2028}' || c
        == '\u{2029}' || c == '\u{202f}' || c == '\u{205f}' || c == '\u{3000}'
}

/// The first index at or after `i` that holds white space, or the length of `s`.
pub open spec fn word_end(s: Seq<char>, i: int) -> int
    decreases s.len() - i,
{
    if i >= s.len() || i < 0 {
        s.len() as int
    } else if is_space(s[i]) {
        i
    } else {
        word_end(s, i + 1)
    }
}

proof fn lemma_word_end_bounds(s: Seq<char>, i: int)
    requires
        0 <= i <= s.len(),
    ensures
        i <= word_end(s, i) <= s.len(),
        i < s.len() && !is_space(s[i]) ==> i < word_end(s, i),
    decreases s.len() - i,
{
    if i < s.len() && !is_space(s[i]) {
        lemma_word_end_bounds(s, i + 1);
    }
}

/// The words of `s` from index `i` on: maximal runs of characters that are
/// not white space.
pub open spec fn words_from(s: Seq<char>, i: int) -> Seq<Seq<char>>
    decreases s.len() - i,
    via words_from_decreases
{
    if i >= s.len() || i < 0 {
        Seq::empty()
    } else if is_space(s[i]) {
        words_from(s, i + 1)
    } else {
        seq![s.subrange(i, word_end(s, i))] + words_from(s, word_end(s, i))
    }
}

#[via_fn]
proof fn words_from_decreases(s: Seq<char>, i: int) {
    if 0 <= i < s.len() && !is_space(s[i]) {
        lemma_word_end_bounds(s, i);
    }
}

/// The words of `s`.
pub open spec fn words(s: Seq<char>) -> Seq<Seq<char>> {
    words_from(s, 0)
}

/// Splits `line` into its words.
pub fn split_words(line: &str) -> (r: Vec<String>)
    ensures
        views(r@) == words(line@),
{
    let cs = chars_of(line);
    let mut r: Vec<String> = Vec::new();
    let mut i: usize = 0;
    while i < cs.len()
        invariant
            i <= cs@.len(),
            cs@ == line@,
            views(r@) + words_from(cs@, i as int) == words(cs@),
        decreases cs@.len() - i,
    {
        if space(cs[i]) {
            i += 1;
        } else {
            let mut e: usize = i;
            while e < cs.len() && !space(cs[e])
                invariant
                    i <= e <= cs@.len(),
                    word_end(cs@, e as int) == word_end(cs@, i as int),
                decreases cs@.len() - e,
            {
                e += 1;
            }
            assert(word_end(cs@, e as int) == e);
            let w = string_of_range(cs.as_slice(), i, e);
            let ghost old_r = r@;
            r.push(w);
            assert(views(r@) =~= views(old_r).push(w@));
            assert(views(r@) + words_from(cs@, e as int) =~= views(old_r) + words_from(
                cs@,
                i as int,
            ));
            i = e;
        }
    }
    assert(views(r@) + words_from(cs@, i as int) =~= views(r@));
    r
}

/// The command name of a command line: its first word, or nothing.
pub open spec fn command_name(line: Seq<char>) -> Seq<char> {
    if words(line).len() > 0 {
        words(line)[0]
    } else {
        Seq::empty()
    }
}

/// The argument of a command line: its second word, if it has one.
pub open spec fn command_arg(line: Seq<char>) -> Option<Seq<char>> {
    if words(line).len() > 1 {
        Some(words(line)[1])
    } else {
        None
    }
}

/// A command typed on the editor's command line.
pub enum Command {
    /// `f` or `find`: search the active buffer.
    Find,
    /// `q` or `quit`: close the active tab.
    Quit,
    /// `x` or `exit`: leave the editor.
    Exit,
    /// `wx`: save every tab that has a path, then leave.
    SaveAllAndExit,
    /// `h` or `help`.
    Help,
    /// `r` or `revert`: reload the active buffer from its file.
    Revert,
    /// `w` or `write`, with an optional path.
    Write(Option<String>),
    /// `wq`, with an optional path: save, then close the tab.
    WriteAndClose(Option<String>),
    /// Anything else.
    Unknown,
}

/// The kinds of command, without their arguments.
#[derive(PartialEq, Eq, Structural, Clone, Copy, Debug)]
pub enum CommandKind {
    Find,
    Quit,
    Exit,
    SaveAllAndExit,
    Help,
    Revert,
    Write,
    WriteAndClose,
    Unknown,
}

/// The kind of command that the name `n` stands for.
pub open spec fn kind_of(n: Seq<char>) -> CommandKind {
    if n == "f"@ || n == "find"@ {
        CommandKind::Find
    } else if n == "q"@ || n == "quit"@ {
        CommandKind::Quit
    } else if n == "x"@ || n == "exit"@ {
        CommandKind::Exit
    } else if n == "wx"@ {
        CommandKind::SaveAllAndExit
    } else if n == "h"@ || n == "help"@ {
        CommandKind::Help
    } else if n == "r"@ || n == "revert"@ {
        CommandKind::Revert
    } else if n == "w"@ || n == "write"@ {
        CommandKind::Write
    } else if n == "wq"@ {
        CommandKind::WriteAndClose
    } else {
        CommandKind::Unknown
    }
}

impl Command {
    /// The kind of this command.
    pub open spec fn kind(&self) -> CommandKind {
        match self {
            Command::Find => CommandKind::Find,
            Command::Quit => CommandKind::Quit,
            Command::Exit => CommandKind::Exit,
            Command::SaveAllAndExit => CommandKind::SaveAllAndExit,
            Command::Help => CommandKind::Help,
            Command::Revert => CommandKind::Revert,
            Command::Write(_) => CommandKind::Write,
            Command::WriteAndClose(_) => CommandKind::WriteAndClose,
            Command::Unknown => CommandKind::Unknown,
        }
    }
}

/// `o` holds a string whose view is `s`, or is `None` as `s` is.
pub open spec fn same_text(o: Option<String>, s: Option<Seq<char>>) -> bool {
    match (o, s) {
        (Some(a), Some(b)) => a@ == b,
        (None, None) => true,
        _ => false,
    }
}

pub(crate) fn is_word(w: &String, lit: &str) -> (r: bool)
    ensures
        r == (w@ == lit@),
{
    let a = chars_of(w.as_str());
    let b = chars_of(lit);
    assert(a@ == w@ && b@ == lit@);
    if a.len() != b.len() {
        return false;
    }
    let mut k: usize = 0;
    while k < a.len()
        invariant
            a@.len() == b@.len(),
            a@ == w@ && b@ == lit@,
            k <= a@.len(),
            forall|m: int| 0 <= m < k ==> a@[m] == b@[m],
        decreases a@.len() - k,
    {
        if a[k] != b[k] {
            assert(a@[k as int] != b@[k as int]);
            return false;
        }
        k += 1;
    }
    assert(a@ =~= b@);
    true
}

/// The command that `line` names.
pub fn parse_command(line: &str) -> (r: Command)
    ensures
        r.kind() == kind_of(command_name(line@)),
        match r {
            Command::Write(p) => same_text(p, command_arg(line@)),
            Command::WriteAndClose(p) => same_text(p, command_arg(line@)),
            _ => true,
        },
{
    let ws = split_words(line);
    let name = if ws.len() > 0 {
        ws[0].clone()
    } else {
        String::new()
    };
    let arg = if ws.len() > 1 {
        Some(ws[1].clone())
    } else {
        None
    };
    assert(name@ == command_name(line@));
    assert(same_text(arg, command_arg(line@)));
    if is_word(&name, "f") || is_word(&name, "find") {
        Command::Find
    } else if is_word(&name, "q") || is_word(&name, "quit") {
        Command::Quit
    } else if is_word(&name, "x") || is_word(&name, "exit") {
        Command::Exit
    } else if is_word(&name, "wx") {
        Command::SaveAllAndExit
    } else if is_word(&name, "h") || is_word(&name, "help") {
        Command::Help
    } else if is_word(&name, "r") || is_word(&name, "revert") {
        Command::Revert
    } else if is_word(&name, "w") || is_word(&name, "write") {
        Command::Write(arg)
    } else if is_word(&name, "wq") {
        Command::WriteAndClose(arg)
    } else {
        Command::Unknown
    }
}

} // verus!
