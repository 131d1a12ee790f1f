//! What is read out of the firewall's answers: the request token of a page
//! and the file name of a downloaded backup.

use crate::text::{
    chars_of, find, find_spec, line_end, line_end_spec, matches_at, occurs_at, optional_text_view,
    slice_of,
};
use vstd::prelude::*;

verus! {

/// The text that opens the hidden form field which carries the request
/// token, up to and with the quote that opens its value.
pub open spec fn csrf_prefix() -> Seq<char> {
    "<input type='hidden' name='__csrf_magic' value=\""@
}

/// The text that closes the field: the closing quote, a space and `/>`.
pub open spec fn csrf_suffix() -> Seq<char> {
    "\" />"@
}

/// The token of the field that opens at place `at`, if one opens there: the
/// characters between the opening text and the first closing text that
/// leaves at least one character between them. There is none where the page
/// ends, or a line ends, before the field is closed.
pub open spec fn csrf_token_at(page: Seq<char>, at: int) -> Option<Seq<char>> {
    let start = at + csrf_prefix().len();
    if occurs_at(page, csrf_prefix(), at) {
        match find_spec(page, csrf_suffix(), start + 1) {
            Some(end) => if end <= line_end_spec(page, start) {
                Some(page.subrange(start, end))
            } else {
                None
            },
            None => None,
        }
    } else {
        None
    }
}

/// The token of the first field that opens at place `from` or later.
pub open spec fn csrf_token_from(page: Seq<char>, from: int) -> Option<Seq<char>>
    decreases page.len() - from + 1,
{
    if from < 0 || from > page.len() {
        None
    } else if csrf_token_at(page, from) is Some {
        csrf_token_at(page, from)
    } else {
        csrf_token_from(page, from + 1)
    }
}

/// The request token of a page: that of its first token field.
pub open spec fn csrf_token_spec(page: Seq<char>) -> Option<Seq<char>> {
    csrf_token_from(page, 0)
}

/// The text that announces the file name in a download's disposition.
pub open spec fn filename_prefix() -> Seq<char> {
    "attachment; filename="@
}

/// The file name announced at place `at`, if one is announced there: the
/// rest of the line, which must not be empty.
pub open spec fn backup_filename_at(disposition: Seq<char>, at: int) -> Option<Seq<char>> {
    let start = at + filename_prefix().len();
    if occurs_at(disposition, filename_prefix(), at) && start < line_end_spec(
        disposition,
        start,
    ) {
        Some(disposition.subrange(start, line_end_spec(disposition, start)))
    } else {
        None
    }
}

/// The first file name announced at place `from` or later.
pub open spec fn backup_filename_from(disposition: Seq<char>, from: int) -> Option<Seq<char>>
    decreases disposition.len() - from + 1,
{
    if from < 0 || from > disposition.len() {
        None
    } else if backup_filename_at(disposition, from) is Some {
        backup_filename_at(disposition, from)
    } else {
        backup_filename_from(disposition, from + 1)
    }
}

/// The file name that a download's disposition announces.
pub open spec fn backup_filename_spec(disposition: Seq<char>) -> Option<Seq<char>> {
    backup_filename_from(disposition, 0)
}

/// A token is never empty, holds no line feed, and is directly followed by
/// the text that closes the field.
pub proof fn lemma_csrf_token_shape(page: Seq<char>, from: int)
    requires
        0 <= from,
    ensures
        csrf_token_from(page, from) matches Some(token) ==> (token.len() > 0 && (forall|i: int|
            0 <= i < token.len() ==> #[trigger] token[i] != '\n') && exists|at: int|
            from <= at && #[trigger] occurs_at(page, csrf_prefix(), at) && token
                == page.subrange(
                at + csrf_prefix().len(),
                at + csrf_prefix().len() + token.len(),
            ) && occurs_at(page, csrf_suffix(), at + csrf_prefix().len() + token.len())),
    decreases page.len() - from + 1,
{
    if from <= page.len() {
        if csrf_token_at(page, from) is Some {
            let start = from + csrf_prefix().len();
            let end = find_spec(page, csrf_suffix(), start + 1)->0;
            crate::text::lemma_find_is_first(page, csrf_suffix(), start + 1);
            crate::text::lemma_line_end(page, start);
            let token = page.subrange(start, end);
            assert forall|i: int| 0 <= i < token.len() implies #[trigger] token[i] != '\n' by {
                assert(token[i] == page[start + i]);
            }
            assert(occurs_at(page, csrf_prefix(), from));
        } else {
            lemma_csrf_token_shape(page, from + 1);
        }
    }
}

/// Reads the request token out of a page.
///
/// The token is the value of the first hidden field named `__csrf_magic`
/// that is written out on one line, in the very form the firewall writes
/// it; the value ends at the first closing quote that is followed by a space
/// and `/>`. A page without such a field has no token.
pub fn extract_csrf_token(page: &str) -> (token: Option<String>)
    ensures
        optional_text_view(token) == csrf_token_spec(page@),
{
    let chars = chars_of(page);
    let prefix = chars_of("<input type='hidden' name='__csrf_magic' value=\"");
    let suffix = chars_of("\" />");
    let mut at: usize = 0;
    while at <= chars.len()
        invariant
            chars@ == page@,
            prefix@ == csrf_prefix(),
            suffix@ == csrf_suffix(),
            at <= chars@.len(),
            csrf_token_spec(page@) == csrf_token_from(page@, at as int),
        decreases chars@.len() - at,
    {
        if matches_at(&chars, &prefix, at) {
            let start = at + prefix.len();
            if start < chars.len() {
                match find(&chars, &suffix, start + 1) {
                    Some(end) => {
                        if end <= line_end(&chars, start) {
                            return Some(slice_of(page, start, end));
                        }
                    },
                    None => {},
                }
            }
        }
        if at == chars.len() {
            assert(csrf_token_from(page@, at + 1) is None);
            return None;
        }
        at = at + 1;
    }
    None
}

/// Reads the name of a downloaded backup out of the download's
/// disposition.
///
/// The name is what follows the first `attachment; filename=` up to the end
/// of its line, and must not be empty.
pub fn extract_backup_filename(disposition: &str) -> (name: Option<String>)
    ensures
        optional_text_view(name) == backup_filename_spec(disposition@),
{
    let chars = chars_of(disposition);
    let prefix = chars_of("attachment; filename=");
    let mut at: usize = 0;
    while at <= chars.len()
        invariant
            chars@ == disposition@,
            prefix@ == filename_prefix(),
            at <= chars@.len(),
            backup_filename_spec(disposition@) == backup_filename_from(disposition@, at as int),
        decreases chars@.len() - at,
    {
        if matches_at(&chars, &prefix, at) {
            let start = at + prefix.len();
            let end = line_end(&chars, start);
            if start < end {
                return Some(slice_of(disposition, start, end));
            }
        }
        if at == chars.len() {
            assert(backup_filename_from(disposition@, at + 1) is None);
            return None;
        }
        at = at + 1;
    }
    None
}

} // verus!
