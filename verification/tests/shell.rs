use pfsense_auto_backup::shell::{parse_command, Command};

fn by_splitting(line: &str) -> Command {
    let mut line = line.to_string();
    if line.ends_with('\n') {
        line.pop();
        if line.ends_with('\r') {
            line.pop();
        }
    }
    let words: Vec<&str> = line.split(' ').filter(|word| !word.is_empty()).collect();
    match words.first() {
        Some(&"backup") => match words.get(1) {
            Some(&"now") => Command::BackupNow,
            Some(&"list") => Command::BackupList,
            Some(&"delete") => match words.get(2) {
                Some(&"help") => Command::BackupDeleteHelp,
                Some(name) => Command::BackupDelete(name.to_string()),
                None => Command::BackupDeleteMissing,
            },
            Some(&"help") => Command::BackupHelp,
            Some(word) => Command::BackupUnknown(word.to_string()),
            None => Command::BackupMissing,
        },
        Some(&"restore") => match words.get(1) {
            Some(&"help") => Command::RestoreHelp,
            Some(name) => Command::Restore(name.to_string()),
            None => Command::RestoreMissing,
        },
        Some(&"help") => Command::Help,
        Some(&"exit") | Some(&"quit") => Command::Exit,
        Some(word) => Command::Unknown(word.to_string()),
        None => Command::Empty,
    }
}

#[test]
fn each_command_is_read() {
    assert_eq!(parse_command("backup now\n"), Command::BackupNow);
    assert_eq!(parse_command("backup list\n"), Command::BackupList);
    assert_eq!(parse_command("backup delete help\n"), Command::BackupDeleteHelp);
    assert_eq!(
        parse_command("backup delete config-1.xml\n"),
        Command::BackupDelete("config-1.xml".to_string())
    );
    assert_eq!(parse_command("backup delete\n"), Command::BackupDeleteMissing);
    assert_eq!(parse_command("backup help\n"), Command::BackupHelp);
    assert_eq!(
        parse_command("backup later\n"),
        Command::BackupUnknown("later".to_string())
    );
    assert_eq!(parse_command("backup\n"), Command::BackupMissing);
    assert_eq!(parse_command("restore help\n"), Command::RestoreHelp);
    assert_eq!(
        parse_command("restore config-1.xml\n"),
        Command::Restore("config-1.xml".to_string())
    );
    assert_eq!(parse_command("restore\n"), Command::RestoreMissing);
    assert_eq!(parse_command("help\n"), Command::Help);
    assert_eq!(parse_command("exit\n"), Command::Exit);
    assert_eq!(parse_command("quit\n"), Command::Exit);
    assert_eq!(
        parse_command("reboot\n"),
        Command::Unknown("reboot".to_string())
    );
    assert_eq!(parse_command("\n"), Command::Empty);
}

#[test]
fn line_end_does_not_belong_to_the_command() {
    assert_eq!(parse_command("help"), Command::Help);
    assert_eq!(parse_command("help\n"), Command::Help);
    assert_eq!(parse_command("help\r\n"), Command::Help);
    assert_eq!(parse_command(""), Command::Empty);
    assert_eq!(parse_command("\r\n"), Command::Empty);
    assert_eq!(
        parse_command("restore a.xml\r\n"),
        Command::Restore("a.xml".to_string())
    );
}

#[test]
fn only_one_line_end_is_left_out() {
    assert_eq!(parse_command("help\r"), Command::Unknown("help\r".to_string()));
    assert_eq!(
        parse_command("help\n\n"),
        Command::Unknown("help\n".to_string())
    );
    assert_eq!(
        parse_command("help\r\r\n"),
        Command::Unknown("help\r".to_string())
    );
    assert_eq!(
        parse_command("help\n\r"),
        Command::Unknown("help\n\r".to_string())
    );
}

#[test]
fn spaces_part_words_and_nothing_else_does() {
    assert_eq!(parse_command("   backup    now   \n"), Command::BackupNow);
    assert_eq!(parse_command("     \n"), Command::Empty);
    assert_eq!(
        parse_command("backup\tnow\n"),
        Command::Unknown("backup\tnow".to_string())
    );
    assert_eq!(
        parse_command("backup delete  my backup.xml\n"),
        Command::BackupDelete("my".to_string())
    );
}

#[test]
fn words_after_the_needed_ones_are_not_looked_at() {
    assert_eq!(parse_command("backup now please\n"), Command::BackupNow);
    assert_eq!(parse_command("help me\n"), Command::Help);
    assert_eq!(parse_command("exit now\n"), Command::Exit);
    assert_eq!(
        parse_command("restore a.xml b.xml\n"),
        Command::Restore("a.xml".to_string())
    );
}

#[test]
fn words_are_told_apart_exactly() {
    assert_eq!(parse_command("Help\n"), Command::Unknown("Help".to_string()));
    assert_eq!(parse_command("helpp\n"), Command::Unknown("helpp".to_string()));
    assert_eq!(parse_command("hel\n"), Command::Unknown("hel".to_string()));
    assert_eq!(
        parse_command("backup Now\n"),
        Command::BackupUnknown("Now".to_string())
    );
    assert_eq!(
        parse_command("backup delete Help\n"),
        Command::BackupDelete("Help".to_string())
    );
    assert_eq!(
        parse_command("restore ünïcödé.xml\n"),
        Command::Restore("ünïcödé.xml".to_string())
    );
}

#[test]
fn reading_agrees_with_splitting_at_spaces() {
    let words = [
        "", " ", "  ", "backup", "restore", "help", "exit", "quit", "now", "list", "delete",
        "a.xml", "né", "\t", "\r",
    ];
    let ends = ["", "\n", "\r\n", "\r", " \n"];
    for first in words {
        for second in words {
            for third in words {
                for end in ends {
                    let line = format!("{} {} {}{}", first, second, third, end);
                    assert_eq!(parse_command(&line), by_splitting(&line));
                    let line = format!("{}{} {}{}", first, second, third, end);
                    assert_eq!(parse_command(&line), by_splitting(&line));
                }
            }
        }
    }
}

#[test]
fn exit_quit_and_restore_end_the_shell() {
    for line in ["exit\n", "quit\n", "restore config.xml\n", "  quit  now\n"] {
        assert!(parse_command(line).ends_session());
    }
    for line in [
        "", "\n", "help\n", "backup\n", "backup now\n", "backup list\n", "backup delete\n",
        "backup delete help\n", "backup delete a.xml\n", "backup help\n", "backup exit\n",
        "restore\n", "restore help\n", "exit2\n", "Exit\n",
    ] {
        assert!(!parse_command(line).ends_session());
    }
}
