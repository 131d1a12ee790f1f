//! The commands of the operator's shell.
//!
//! A command line is a row of words, parted by spaces. The line's end, a line
//! feed with or without a carriage return before it, does not belong to it.
//! Words after those that a command needs are not looked at.

use crate::text::{chars_of, matches_at, slice_of};
use vstd::prelude::*;

verus! {

/// What the operator asked for.
#[derive(Debug, PartialEq, Eq)]
pub enum Command {
    /// The line holds no word.
    Empty,
    /// `backup` with no word after it.
    BackupMissing,
    /// `backup now`: take a backup.
    BackupNow,
    /// `backup list`: list the backups.
    BackupList,
    /// `backup delete` with no word after it.
    BackupDeleteMissing,
    /// `backup delete help`.
    BackupDeleteHelp,
    /// `backup delete` and the name of a backup: delete that backup.
    BackupDelete(String),
    /// `backup help`.
    BackupHelp,
    /// `backup` and a word that names none of its subcommands.
    BackupUnknown(String),
    /// `restore` with no word after it.
    RestoreMissing,
    /// `restore help`.
    RestoreHelp,
    /// `restore` and the name of a backup: restore that backup, then leave.
    Restore(String),
    /// `help`.
    Help,
    /// `exit` or `quit`: leave.
    Exit,
    /// A word that names no command.
    Unknown(String),
}

/// The mathematical value of a [`Command`].
pub enum CommandView {
    Empty,
    BackupMissing,
    BackupNow,
    BackupList,
    BackupDeleteMissing,
    BackupDeleteHelp,
    BackupDelete(Seq<char>),
    BackupHelp,
    BackupUnknown(Seq<char>),
    RestoreMissing,
    RestoreHelp,
    Restore(Seq<char>),
    Help,
    Exit,
    Unknown(Seq<char>),
}

impl View for Command {
    type V = CommandView;

    open spec fn view(&self) -> CommandView {
        match self {
            Command::Empty => CommandView::Empty,
            Command::BackupMissing => CommandView::BackupMissing,
            Command::BackupNow => CommandView::BackupNow,
            Command::BackupList => CommandView::BackupList,
            Command::BackupDeleteMissing => CommandView::BackupDeleteMissing,
            Command::BackupDeleteHelp => CommandView::BackupDeleteHelp,
            Command::BackupDelete(name) => CommandView::BackupDelete(name@),
            Command::BackupHelp => CommandView::BackupHelp,
            Command::BackupUnknown(word) => CommandView::BackupUnknown(word@),
            Command::RestoreMissing => CommandView::RestoreMissing,
            Command::RestoreHelp => CommandView::RestoreHelp,
            Command::Restore(name) => CommandView::Restore(name@),
            Command::Help => CommandView::Help,
            Command::Exit => CommandView::Exit,
            Command::Unknown(word) => CommandView::Unknown(word@),
        }
    }
}

/// Whether the shell is left once a command was carried out: after `exit`
/// and `quit`, and after a restore, since the firewall then restarts.
pub open spec fn ends_session_spec(command: CommandView) -> bool {
    command is Exit || command is Restore
}

impl Command {
    /// Tells whether the shell is left once this command was carried out.
    pub fn ends_session(&self) -> (ends: bool)
        ensures
            ends == ends_session_spec(self@),
    {
        match self {
            Command::Exit => true,
            Command::Restore(_) => true,
            _ => false,
        }
    }
}

/// The length of a line without its end: one line feed at the end is left
/// out, and then one carriage return before it.
pub open spec fn content_length_spec(line: Seq<char>) -> int {
    if line.len() > 0 && line.last() == '\n' {
        if line.len() > 1 && line[line.len() - 2] == '\r' {
            line.len() - 2
        } else {
            line.len() - 1
        }
    } else {
        line.len() as int
    }
}

/// The first place from `from` on, before `end`, that holds no space; `end`
/// where there is none.
pub open spec fn word_start_spec(line: Seq<char>, from: int, end: int) -> int
    decreases end - from,
{
    if from < 0 || from >= end || from >= line.len() {
        end
    } else if line[from] != ' ' {
        from
    } else {
        word_start_spec(line, from + 1, end)
    }
}

/// The first place from `from` on, before `end`, that holds a space; `end`
/// where there is none.
pub open spec fn word_end_spec(line: Seq<char>, from: int, end: int) -> int
    decreases end - from,
{
    if from < 0 || from >= end || from >= line.len() {
        end
    } else if line[from] == ' ' {
        from
    } else {
        word_end_spec(line, from + 1, end)
    }
}

/// The next word from `from` on, before `end`: where it starts and where it
/// ends, or nothing where only spaces are left.
pub open spec fn next_word_spec(line: Seq<char>, from: int, end: int) -> Option<(int, int)> {
    let start = word_start_spec(line, from, end);
    if start >= end {
        None
    } else {
        Some((start, word_end_spec(line, start, end)))
    }
}

/// What `backup` and the words after it ask for.
pub open spec fn backup_command_spec(line: Seq<char>, from: int, end: int) -> CommandView {
    match next_word_spec(line, from, end) {
        None => CommandView::BackupMissing,
        Some((start, stop)) => {
            let word = line.subrange(start, stop);
            if word == "now"@ {
                CommandView::BackupNow
            } else if word == "list"@ {
                CommandView::BackupList
            } else if word == "delete"@ {
                match next_word_spec(line, stop, end) {
                    None => CommandView::BackupDeleteMissing,
                    Some((name_start, name_stop)) => {
                        let name = line.subrange(name_start, name_stop);
                        if name == "help"@ {
                            CommandView::BackupDeleteHelp
                        } else {
                            CommandView::BackupDelete(name)
                        }
                    },
                }
            } else if word == "help"@ {
                CommandView::BackupHelp
            } else {
                CommandView::BackupUnknown(word)
            }
        },
    }
}

/// What `restore` and the word after it ask for.
pub open spec fn restore_command_spec(line: Seq<char>, from: int, end: int) -> CommandView {
    match next_word_spec(line, from, end) {
        None => CommandView::RestoreMissing,
        Some((start, stop)) => {
            let name = line.subrange(start, stop);
            if name == "help"@ {
                CommandView::RestoreHelp
            } else {
                CommandView::Restore(name)
            }
        },
    }
}

/// What a command line asks for.
pub open spec fn parse_command_spec(line: Seq<char>) -> CommandView {
    let end = content_length_spec(line);
    match next_word_spec(line, 0, end) {
        None => CommandView::Empty,
        Some((start, stop)) => {
            let word = line.subrange(start, stop);
            if word == "backup"@ {
                backup_command_spec(line, stop, end)
            } else if word == "restore"@ {
                restore_command_spec(line, stop, end)
            } else if word == "help"@ {
                CommandView::Help
            } else if word == "exit"@ || word == "quit"@ {
                CommandView::Exit
            } else {
                CommandView::Unknown(word)
            }
        },
    }
}

/// A word lies within the line's content, is not empty, holds no space, and
/// only spaces lie between the place asked from and its start.
pub proof fn lemma_next_word(line: Seq<char>, from: int, end: int)
    requires
        0 <= from <= end <= line.len(),
    ensures
        next_word_spec(line, from, end) matches Some((start, stop)) ==> (from <= start < stop
            <= end && (forall|i: int| from <= i < start ==> line[i] == ' ') && (forall|i: int|
            start <= i < stop ==> line[i] != ' ') && (stop == end || line[stop] == ' ')),
        next_word_spec(line, from, end) is None ==> forall|i: int|
            from <= i < end ==> line[i] == ' ',
{
    lemma_word_start(line, from, end);
    let start = word_start_spec(line, from, end);
    if start < end {
        lemma_word_end(line, start, end);
    }
}

/// Where a word starts: at or after the place asked from, after spaces
/// only, at a character that is no space unless the content ends first.
pub proof fn lemma_word_start(line: Seq<char>, from: int, end: int)
    requires
        0 <= from <= end <= line.len(),
    ensures
        from <= word_start_spec(line, from, end) <= end,
        forall|i: int| from <= i < word_start_spec(line, from, end) ==> line[i] == ' ',
        word_start_spec(line, from, end) < end ==> line[word_start_spec(line, from, end)] != ' ',
    decreases end - from,
{
    if from < end && line[from] == ' ' {
        lemma_word_start(line, from + 1, end);
    }
}

/// Where a word ends: at or after the place asked from, after characters
/// that are no spaces, at a space unless the content ends first.
pub proof fn lemma_word_end(line: Seq<char>, from: int, end: int)
    requires
        0 <= from <= end <= line.len(),
    ensures
        from <= word_end_spec(line, from, end) <= end,
        forall|i: int| from <= i < word_end_spec(line, from, end) ==> line[i] != ' ',
        word_end_spec(line, from, end) < end ==> line[word_end_spec(line, from, end)] == ' ',
        (from < end && line[from] != ' ') ==> from < word_end_spec(line, from, end),
    decreases end - from,
{
    if from < end && line[from] != ' ' {
        lemma_word_end(line, from + 1, end);
    }
}

/// Finds the length of a line without its end.
fn content_length(chars: &Vec<char>) -> (end: usize)
    ensures
        end == content_length_spec(chars@),
        end <= chars@.len(),
{
    let length = chars.len();
    if length > 0 && chars[length - 1] == '\n' {
        if length > 1 && chars[length - 2] == '\r' {
            length - 2
        } else {
            length - 1
        }
    } else {
        length
    }
}

/// Finds the next word from `from` on, before `end`.
fn next_word(chars: &Vec<char>, from: usize, end: usize) -> (word: Option<(usize, usize)>)
    requires
        from <= end <= chars@.len(),
    ensures
        match word {
            Some((start, stop)) => next_word_spec(chars@, from as int, end as int) == Some(
                (start as int, stop as int),
            ) && from <= start < stop <= end,
            None => next_word_spec(chars@, from as int, end as int) is None,
        },
{
    let mut start: usize = from;
    while start < end && chars[start] == ' '
        invariant
            from <= start <= end <= chars@.len(),
            word_start_spec(chars@, from as int, end as int) == word_start_spec(
                chars@,
                start as int,
                end as int,
            ),
        decreases end - start,
    {
        start = start + 1;
    }
    if start >= end {
        return None;
    }
    let mut stop: usize = start;
    while stop < end && chars[stop] != ' '
        invariant
            start <= stop <= end <= chars@.len(),
            word_end_spec(chars@, start as int, end as int) == word_end_spec(
                chars@,
                stop as int,
                end as int,
            ),
        decreases end - stop,
    {
        stop = stop + 1;
    }
    proof {
        lemma_word_end(chars@, start as int, end as int);
    }
    Some((start, stop))
}

/// Tells whether the word from `start` to `stop` is the given one.
fn word_is(chars: &Vec<char>, start: usize, stop: usize, expected: &str) -> (same: bool)
    requires
        start <= stop <= chars@.len(),
    ensures
        same == (chars@.subrange(start as int, stop as int) == expected@),
{
    let pattern = chars_of(expected);
    stop - start == pattern.len() && matches_at(chars, &pattern, start)
}

/// Reads what `backup` and the words after it ask for.
fn parse_backup_command(line: &str, chars: &Vec<char>, from: usize, end: usize) -> (command:
    Command)
    requires
        chars@ == line@,
        from <= end <= chars@.len(),
    ensures
        command@ == backup_command_spec(line@, from as int, end as int),
{
    match next_word(chars, from, end) {
        None => Command::BackupMissing,
        Some((start, stop)) => {
            if word_is(chars, start, stop, "now") {
                Command::BackupNow
            } else if word_is(chars, start, stop, "list") {
                Command::BackupList
            } else if word_is(chars, start, stop, "delete") {
                match next_word(chars, stop, end) {
                    None => Command::BackupDeleteMissing,
                    Some((name_start, name_stop)) => {
                        if word_is(chars, name_start, name_stop, "help") {
                            Command::BackupDeleteHelp
                        } else {
                            Command::BackupDelete(slice_of(line, name_start, name_stop))
                        }
                    },
                }
            } else if word_is(chars, start, stop, "help") {
                Command::BackupHelp
            } else {
                Command::BackupUnknown(slice_of(line, start, stop))
            }
        },
    }
}

/// Reads what `restore` and the word after it ask for.
fn parse_restore_command(line: &str, chars: &Vec<char>, from: usize, end: usize) -> (command:
    Command)
    requires
        chars@ == line@,
        from <= end <= chars@.len(),
    ensures
        command@ == restore_command_spec(line@, from as int, end as int),
{
    match next_word(chars, from, end) {
        None => Command::RestoreMissing,
        Some((start, stop)) => {
            if word_is(chars, start, stop, "help") {
                Command::RestoreHelp
            } else {
                Command::Restore(slice_of(line, start, stop))
            }
        },
    }
}

/// Reads a command line.
///
/// The first word names the command: `backup`, `restore`, `help`, `exit` or
/// `quit`. `backup` takes a subcommand, `now`, `list`, `delete` or `help`,
/// and `backup delete` and `restore` take the name of a backup, or `help`.
/// Words are told apart exactly, in lower case.
pub fn parse_command(line: &str) -> (command: Command)
    ensures
        command@ == parse_command_spec(line@),
{
    let chars = chars_of(line);
    let end = content_length(&chars);
    match next_word(&chars, 0, end) {
        None => Command::Empty,
        Some((start, stop)) => {
            if word_is(&chars, start, stop, "backup") {
                parse_backup_command(line, &chars, stop, end)
            } else if word_is(&chars, start, stop, "restore") {
                parse_restore_command(line, &chars, stop, end)
            } else if word_is(&chars, start, stop, "help") {
                Command::Help
            } else if word_is(&chars, start, stop, "exit") || word_is(
                &chars,
                start,
                stop,
                "quit",
            ) {
                Command::Exit
            } else {
                Command::Unknown(slice_of(line, start, stop))
            }
        },
    }
}

} // verus!
