use pfsense_auto_backup::scrape::{extract_backup_filename, extract_csrf_token};
use regex::Regex;

const FIELD: &str = "<input type='hidden' name='__csrf_magic' value=\"";

fn token_pattern() -> Regex {
    Regex::new(r#"<input type='hidden' name='__csrf_magic' value="(.+?)" />"#).unwrap()
}

fn filename_pattern() -> Regex {
    Regex::new(r"attachment; filename=(.+)").unwrap()
}

fn first_group(pattern: &Regex, text: &str) -> Option<String> {
    pattern
        .captures(text)
        .map(|captures| captures.get(1).unwrap().as_str().to_string())
}

#[test]
fn token_is_read_from_a_login_page() {
    let page = "<html><body><form method=\"post\">\n\
        <input type='hidden' name='__csrf_magic' value=\"sid:0a1b2c3d4e5f,1612345678\" />\n\
        <input name=\"usernamefld\" />\n</form></body></html>";
    assert_eq!(
        extract_csrf_token(page),
        Some("sid:0a1b2c3d4e5f,1612345678".to_string())
    );
}

#[test]
fn page_without_token_field_has_no_token() {
    for page in [
        "",
        "<html></html>",
        "<input type='hidden' name='__csrf_magic' value=\"",
        "<input type='hidden' name='__csrf_magic' value=\"abc",
        "<input type='hidden' name='__csrf_magic' value=\"abc\"/>",
        "<input type='hidden' name='__csrf_magic' value=\"abc\" >",
        "<input type=\"hidden\" name=\"__csrf_magic\" value=\"abc\" />",
        "<input type='hidden' name='csrf_magic' value=\"abc\" />",
        "<input type='hidden' name='__csrf_magic' value=\"\" />",
    ] {
        assert_eq!(extract_csrf_token(page), None);
    }
}

#[test]
fn token_ends_at_the_first_closing_text() {
    let page = format!("{}one\" /> and {}two\" />", FIELD, FIELD);
    assert_eq!(extract_csrf_token(&page), Some("one".to_string()));
    let page = format!("{}a\"b\" />\" />", FIELD);
    assert_eq!(extract_csrf_token(&page), Some("a\"b".to_string()));
}

#[test]
fn token_has_at_least_one_character() {
    let page = format!("{}\" />x\" />", FIELD);
    assert_eq!(extract_csrf_token(&page), Some("\" />x".to_string()));
    let page = format!("{}\" /> trailing", FIELD);
    assert_eq!(extract_csrf_token(&page), None);
}

#[test]
fn token_does_not_run_over_a_line_end() {
    let page = format!("{}abc\ndef\" />", FIELD);
    assert_eq!(extract_csrf_token(&page), None);
    let page = format!("{}abc\ndef\" />\n{}second\" />", FIELD, FIELD);
    assert_eq!(extract_csrf_token(&page), Some("second".to_string()));
    let page = format!("{}abc\r\" />", FIELD);
    assert_eq!(extract_csrf_token(&page), Some("abc\r".to_string()));
}

#[test]
fn token_may_hold_any_other_character() {
    let page = format!("{}sïd:日本語,<>'\" \" />", FIELD);
    assert_eq!(extract_csrf_token(&page), Some("sïd:日本語,<>'\" ".to_string()));
    let page = format!("é{}x\" />", FIELD);
    assert_eq!(extract_csrf_token(&page), Some("x".to_string()));
}

#[test]
fn token_agrees_with_the_pattern() {
    let pattern = token_pattern();
    let pieces = ["", "x", "\"", "\" />", "\n", " ", FIELD, "/>", "\" /", "é", "a\"b"];
    for first in pieces {
        for second in pieces {
            for third in pieces {
                let page = format!("{}{}{}{}", first, FIELD, second, third);
                assert_eq!(extract_csrf_token(&page), first_group(&pattern, &page));
                let page = format!("{}{}{}", first, second, third);
                assert_eq!(extract_csrf_token(&page), first_group(&pattern, &page));
            }
        }
    }
}

#[test]
fn token_agrees_with_the_pattern_on_longer_pages() {
    let pattern = token_pattern();
    let pieces = ["x", "\" />", "\n", FIELD, "\""];
    for first in pieces {
        for second in pieces {
            for third in pieces {
                for fourth in pieces {
                    for fifth in pieces {
                        let page = format!("{}{}{}{}{}", first, second, third, fourth, fifth);
                        assert_eq!(extract_csrf_token(&page), first_group(&pattern, &page));
                    }
                }
            }
        }
    }
}

#[test]
fn filename_is_read_from_a_disposition() {
    assert_eq!(
        extract_backup_filename(
            "attachment; filename=config-pfSense.localdomain-20210203123456.xml"
        ),
        Some("config-pfSense.localdomain-20210203123456.xml".to_string())
    );
}

#[test]
fn filename_runs_to_the_end_of_its_line() {
    assert_eq!(
        extract_backup_filename("attachment; filename=a b; c=d"),
        Some("a b; c=d".to_string())
    );
    assert_eq!(
        extract_backup_filename("attachment; filename=first.xml\nsecond"),
        Some("first.xml".to_string())
    );
    assert_eq!(
        extract_backup_filename("x attachment; filename=\"quoted.xml\""),
        Some("\"quoted.xml\"".to_string())
    );
}

#[test]
fn disposition_without_a_name_has_no_filename() {
    for disposition in [
        "",
        "inline",
        "attachment",
        "attachment; filename=",
        "attachment; filename=\nconfig.xml",
        "attachment;filename=config.xml",
        "Attachment; Filename=config.xml",
    ] {
        assert_eq!(extract_backup_filename(disposition), None);
    }
}

#[test]
fn empty_name_is_passed_over_for_a_later_one() {
    assert_eq!(
        extract_backup_filename("attachment; filename=\nattachment; filename=late.xml"),
        Some("late.xml".to_string())
    );
}

#[test]
fn filename_agrees_with_the_pattern() {
    let pieces = [
        "", "x", "config.xml", "\n", " ", "attachment; filename=", "attachment; ", "filename=",
        "é", ";",
    ];
    let pattern = filename_pattern();
    for first in pieces {
        for second in pieces {
            for third in pieces {
                for fourth in pieces {
                    let text = format!("{}{}{}{}", first, second, third, fourth);
                    assert_eq!(extract_backup_filename(&text), first_group(&pattern, &text));
                }
            }
        }
    }
}
