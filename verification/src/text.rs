//! Text as a sequence of characters, and searching in it.

use vstd::prelude::*;
use vstd::string::*;

verus! {

/// Whether `pattern` stands in `text` at place `at`.
pub open spec fn occurs_at(text: Seq<char>, pattern: Seq<char>, at: int) -> bool {
    0 <= at && at + pattern.len() <= text.len() && text.subrange(at, at + pattern.len())
        == pattern
}

/// The first place from `from` on at which `pattern` stands in `text`.
pub open spec fn find_spec(text: Seq<char>, pattern: Seq<char>, from: int) -> Option<int>
    decreases text.len() - from + 1,
{
    if from < 0 || from + pattern.len() > text.len() {
        None
    } else if occurs_at(text, pattern, from) {
        Some(from)
    } else {
        find_spec(text, pattern, from + 1)
    }
}

/// The end of the line that place `from` lies on: the place of the next line
/// feed, or the end of the text.
pub open spec fn line_end_spec(text: Seq<char>, from: int) -> int
    decreases text.len() - from,
{
    if from < 0 || from >= text.len() {
        text.len() as int
    } else if text[from] == '\n' {
        from
    } else {
        line_end_spec(text, from + 1)
    }
}

/// What a search finds is the first place at which the pattern stands, and
/// it finds nothing only where the pattern stands nowhere.
pub proof fn lemma_find_is_first(text: Seq<char>, pattern: Seq<char>, from: int)
    requires
        0 <= from,
    ensures
        find_spec(text, pattern, from) matches Some(at) ==> (from <= at && occurs_at(
            text,
            pattern,
            at,
        ) && forall|earlier: int| from <= earlier < at ==> !occurs_at(text, pattern, earlier)),
        find_spec(text, pattern, from) is None ==> forall|at: int|
            from <= at ==> !occurs_at(text, pattern, at),
    decreases text.len() - from + 1,
{
    if from + pattern.len() <= text.len() && !occurs_at(text, pattern, from) {
        lemma_find_is_first(text, pattern, from + 1);
    }
}

/// The end of a line is at or after the place asked from, no line feed lies
/// between the two, and the line ends at a line feed or with the text.
pub proof fn lemma_line_end(text: Seq<char>, from: int)
    requires
        0 <= from <= text.len(),
    ensures
        from <= line_end_spec(text, from) <= text.len(),
        forall|i: int| from <= i < line_end_spec(text, from) ==> text[i] != '\n',
        line_end_spec(text, from) == text.len() || text[line_end_spec(text, from)] == '\n',
    decreases text.len() - from,
{
    if from < text.len() && text[from] != '\n' {
        lemma_line_end(text, from + 1);
    }
}

/// The characters of a text, in order.
pub fn chars_of(text: &str) -> (chars: Vec<char>)
    ensures
        chars@ == text@,
{
    let mut chars: Vec<char> = Vec::new();
    for c in it: text.chars()
        invariant
            it.seq() == text@,
            chars@ == it.seq().take(it.index() as int),
    {
        chars.push(c);
    }
    chars
}

/// Tells whether `pattern` stands in `text` at place `at`.
pub fn matches_at(text: &Vec<char>, pattern: &Vec<char>, at: usize) -> (found: bool)
    ensures
        found == occurs_at(text@, pattern@, at as int),
{
    if pattern.len() > text.len() || at > text.len() - pattern.len() {
        return false;
    }
    let ghost window = text@.subrange(at as int, at + pattern@.len());
    let length: usize = pattern.len();
    let mut i: usize = 0;
    while i < length
        invariant
            length == pattern@.len(),
            i <= length,
            at + length <= text@.len() <= usize::MAX,
            window == text@.subrange(at as int, at + pattern@.len()),
            window.take(i as int) == pattern@.take(i as int),
        decreases pattern@.len() - i,
    {
        if text[at + i] != pattern[i] {
            proof {
                assert(window[i as int] == text@[at + i]);
            }
            return false;
        }
        proof {
            assert(window[i as int] == text@[at + i]);
            assert(window.take(i as int + 1) == window.take(i as int).push(window[i as int]));
            assert(pattern@.take(i as int + 1) == pattern@.take(i as int).push(
                pattern@[i as int],
            ));
        }
        i = i + 1;
    }
    proof {
        assert(window.take(pattern@.len() as int) == window);
        assert(pattern@.take(pattern@.len() as int) == pattern@);
    }
    true
}

/// Finds the first place from `from` on at which `pattern` stands in `text`.
pub fn find(text: &Vec<char>, pattern: &Vec<char>, from: usize) -> (found: Option<usize>)
    ensures
        match found {
            Some(at) => find_spec(text@, pattern@, from as int) == Some(at as int),
            None => find_spec(text@, pattern@, from as int) is None,
        },
        found matches Some(at) ==> from <= at && at + pattern@.len() <= text@.len(),
{
    proof {
        lemma_find_is_first(text@, pattern@, from as int);
    }
    if pattern.len() > text.len() {
        return None;
    }
    let last = text.len() - pattern.len();
    let mut at: usize = from;
    while at <= last
        invariant
            last == text@.len() - pattern@.len(),
            from <= at,
            find_spec(text@, pattern@, from as int) == find_spec(text@, pattern@, at as int),
        decreases last + 1 - at,
    {
        if matches_at(text, pattern, at) {
            return Some(at);
        }
        if at == last {
            assert(find_spec(text@, pattern@, at + 1) is None);
            return None;
        }
        at = at + 1;
    }
    None
}

/// Finds the end of the line that place `from` lies on. Past the end of the
/// text, that is the end of the text.
pub fn line_end(text: &Vec<char>, from: usize) -> (end: usize)
    ensures
        end == line_end_spec(text@, from as int),
        end <= text@.len(),
        from <= text@.len() ==> from <= end,
{
    if from >= text.len() {
        return text.len();
    }
    let mut end: usize = from;
    while end < text.len() && text[end] != '\n'
        invariant
            from <= end <= text@.len(),
            line_end_spec(text@, from as int) == line_end_spec(text@, end as int),
        decreases text@.len() - end,
    {
        end = end + 1;
    }
    end
}

/// The view of a text that may be absent.
pub open spec fn optional_text_view(text: Option<String>) -> Option<Seq<char>> {
    match text {
        Some(t) => Some(t@),
        None => None,
    }
}

/// Copies the characters from `from` up to `to` out of a text.
pub(crate) fn slice_of(text: &str, from: usize, to: usize) -> (part: String)
    requires
        from <= to <= text@.len(),
    ensures
        part@ == text@.subrange(from as int, to as int),
{
    String::from_str(text.substring_char(from, to))
}

} // verus!
