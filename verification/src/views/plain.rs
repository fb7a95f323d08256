//! The templates that the service accepts.
//!
//! A template is text with three kinds of tags in it: `{{ name }}` and
//! `{{ name | safe }}` put the value of a variable into the page,
//! `{% if name %}`, `{% else %}` and `{% endif %}` choose between parts of
//! it, and `{# .. #}` holds a remark that no page shows. Inside a tag,
//! blanks, tabs and line breaks may stand between the words. Such a
//! template reads nothing but its variables: it cannot include, import or
//! extend another template, call anything, or compute. Whatever else a
//! source holds, it is not accepted.

use vstd::prelude::*;

verus! {

/// How deep conditions may stand inside one another.
pub const MAX_NESTING: usize = 64;

/// A character that can begin a name.
pub open spec fn is_name_start(c: char) -> bool {
    ('a' <= c && c <= 'z') || ('A' <= c && c <= 'Z') || c == '_'
}

/// A character that can stand in a name.
pub open spec fn is_name_char(c: char) -> bool {
    is_name_start(c) || ('0' <= c && c <= '9')
}

/// A character that may stand between the words of a tag.
pub open spec fn is_space(c: char) -> bool {
    c == ' ' || c == '\t' || c == '\r' || c == '\n'
}

/// The first position at or after `i` that holds no space.
pub open spec fn after_spaces(s: Seq<char>, i: int) -> int
    decreases s.len() - i,
{
    if 0 <= i < s.len() && is_space(s[i]) {
        after_spaces(s, i + 1)
    } else {
        i
    }
}

/// The first position at or after `i` that holds no character of a name.
pub open spec fn after_name(s: Seq<char>, i: int) -> int
    decreases s.len() - i,
{
    if 0 <= i < s.len() && is_name_char(s[i]) {
        after_name(s, i + 1)
    } else {
        i
    }
}

/// A name begins at position `i`.
pub open spec fn name_at(s: Seq<char>, i: int) -> bool {
    0 <= i < s.len() && is_name_start(s[i])
}

/// A tag that began with `{` and `mark` closes at position `i` with `mark`
/// and `}`; for `{{` the mark is `}`.
pub open spec fn closes_at(s: Seq<char>, i: int, mark: char) -> bool {
    0 <= i && i + 1 < s.len() && s[i] == mark && s[i + 1] == '}'
}

/// A tag begins at position `i` with `{` and `mark`.
pub open spec fn opens_at(s: Seq<char>, i: int, mark: char) -> bool {
    0 <= i && i + 1 < s.len() && s[i] == '{' && s[i + 1] == mark
}

/// Where the tag `{{ name }}` or `{{ name | safe }}` that begins at
/// position `i` ends, if that is what begins there.
pub open spec fn expression_end(s: Seq<char>, i: int) -> Option<int> {
    let name = after_spaces(s, i + 2);
    let bar = after_spaces(s, after_name(s, name));
    let filter = after_spaces(s, bar + 1);
    let close = after_spaces(s, after_name(s, filter));
    if !name_at(s, name) {
        None
    } else if closes_at(s, bar, '}') {
        Some(bar + 2)
    } else if 0 <= bar < s.len() && s[bar] == '|' && s.subrange(filter, after_name(s, filter))
        == seq!['s', 'a', 'f', 'e'] && closes_at(s, close, '}') {
        Some(close + 2)
    } else {
        None
    }
}

/// A tag of a condition: where it ends and by how much it changes the
/// depth of nesting.
pub struct Statement {
    pub end: int,
    pub nesting: int,
}

/// The tag `{% if name %}`, `{% else %}` or `{% endif %}` that begins at
/// position `i`, if that is what begins there.
pub open spec fn statement_at(s: Seq<char>, i: int) -> Option<Statement> {
    let word = after_spaces(s, i + 2);
    let rest = after_name(s, word);
    let name = after_spaces(s, rest);
    let close = after_spaces(s, after_name(s, name));
    if s.subrange(word, rest) == seq!['i', 'f'] {
        if name > rest && name_at(s, name) && closes_at(s, close, '%') {
            Some(Statement { end: close + 2, nesting: 1 })
        } else {
            None
        }
    } else if s.subrange(word, rest) == seq!['e', 'l', 's', 'e'] && closes_at(s, name, '%') {
        Some(Statement { end: name + 2, nesting: 0 })
    } else if s.subrange(word, rest) == seq!['e', 'n', 'd', 'i', 'f'] && closes_at(s, name, '%') {
        Some(Statement { end: name + 2, nesting: -1 })
    } else {
        None
    }
}

/// Where the remark ends whose text begins at position `i`: behind the
/// first `#}` at or after `i`, if there is one.
pub open spec fn remark_end(s: Seq<char>, i: int) -> Option<int>
    decreases s.len() - i,
{
    if i < 0 || i + 1 >= s.len() {
        None
    } else if closes_at(s, i, '#') {
        Some(i + 2)
    } else {
        remark_end(s, i + 1)
    }
}

/// From position `i` on, at this depth of nesting, the source holds text
/// and accepted tags only, and no condition stands deeper than
/// [`MAX_NESTING`] or is closed without having been opened.
pub open spec fn plain_from(s: Seq<char>, i: int, depth: int) -> bool
    decreases s.len() - i,
{
    if i < 0 || i >= s.len() {
        true
    } else if opens_at(s, i, '{') {
        match expression_end(s, i) {
            Some(end) => end > i && plain_from(s, end, depth),
            None => false,
        }
    } else if opens_at(s, i, '%') {
        match statement_at(s, i) {
            Some(tag) => tag.end > i && 0 <= depth + tag.nesting <= MAX_NESTING && plain_from(
                s,
                tag.end,
                depth + tag.nesting,
            ),
            None => false,
        }
    } else if opens_at(s, i, '#') {
        match remark_end(s, i + 2) {
            Some(end) => i < end <= s.len() && plain_from(s, end, depth),
            None => false,
        }
    } else {
        plain_from(s, i + 1, depth)
    }
}

/// The source is one that the service accepts.
pub open spec fn plain(s: Seq<char>) -> bool {
    plain_from(s, 0, 0)
}

fn space(c: char) -> (r: bool)
    ensures
        r == is_space(c),
{
    c == ' ' || c == '\t' || c == '\r' || c == '\n'
}

fn name_start(c: char) -> (r: bool)
    ensures
        r == is_name_start(c),
{
    ('a' <= c && c <= 'z') || ('A' <= c && c <= 'Z') || c == '_'
}

fn name_char(c: char) -> (r: bool)
    ensures
        r == is_name_char(c),
{
    name_start(c) || ('0' <= c && c <= '9')
}

fn skip_spaces(text: &Vec<char>, from: usize) -> (r: usize)
    requires
        from <= text.len(),
    ensures
        r == after_spaces(text@, from as int),
        from <= r <= text.len(),
{
    let mut i: usize = from;
    while i < text.len() && space(text[i])
        invariant
            from <= i <= text.len(),
            after_spaces(text@, from as int) == after_spaces(text@, i as int),
        decreases text.len() - i,
    {
        i = i + 1;
    }
    i
}

fn skip_name(text: &Vec<char>, from: usize) -> (r: usize)
    requires
        from <= text.len(),
    ensures
        r == after_name(text@, from as int),
        from <= r <= text.len(),
{
    let mut i: usize = from;
    while i < text.len() && name_char(text[i])
        invariant
            from <= i <= text.len(),
            after_name(text@, from as int) == after_name(text@, i as int),
        decreases text.len() - i,
    {
        i = i + 1;
    }
    i
}

fn begins_name(text: &Vec<char>, i: usize) -> (r: bool)
    ensures
        r == name_at(text@, i as int),
{
    i < text.len() && name_start(text[i])
}

fn closes(text: &Vec<char>, i: usize, mark: char) -> (r: bool)
    ensures
        r == closes_at(text@, i as int, mark),
{
    i < text.len() && text.len() - i > 1 && text[i] == mark && text[i + 1] == '}'
}

fn opens(text: &Vec<char>, i: usize, mark: char) -> (r: bool)
    ensures
        r == opens_at(text@, i as int, mark),
{
    i < text.len() && text.len() - i > 1 && text[i] == '{' && text[i + 1] == mark
}

/// Whether the characters from `from` up to `to` spell `word`.
fn spells(text: &Vec<char>, from: usize, to: usize, word: &Vec<char>) -> (r: bool)
    requires
        from <= to <= text.len(),
    ensures
        r == (text@.subrange(from as int, to as int) == word@),
{
    if to - from != word.len() {
        return false;
    }
    let mut k: usize = 0;
    while k < word.len()
        invariant
            k <= word.len(),
            from <= to <= text.len(),
            to - from == word.len(),
            forall|j: int| 0 <= j < k ==> text@[from + j] == word@[j],
        decreases word.len() - k,
    {
        if text[from + k] != word[k] {
            proof {
                assert(text@.subrange(from as int, to as int)[k as int] != word@[k as int]);
            }
            return false;
        }
        k = k + 1;
    }
    proof {
        assert(text@.subrange(from as int, to as int) =~= word@);
    }
    true
}

/// Where the expression tag that begins at `i` ends, if one begins there.
fn end_of_expression(text: &Vec<char>, i: usize) -> (r: Option<usize>)
    requires
        opens_at(text@, i as int, '{'),
    ensures
        r is Some <==> expression_end(text@, i as int) is Some,
        r is Some ==> r->0 == expression_end(text@, i as int)->0 && i < r->0 <= text.len(),
{
    assert(i + 2 <= text.len());
    let name = skip_spaces(text, i + 2);
    if !begins_name(text, name) {
        return None;
    }
    let bar = skip_spaces(text, skip_name(text, name));
    if closes(text, bar, '}') {
        return Some(bar + 2);
    }
    if !(bar < text.len() && text[bar] == '|') {
        return None;
    }
    let filter = skip_spaces(text, bar + 1);
    let filter_end = skip_name(text, filter);
    let close = skip_spaces(text, filter_end);
    let safe = vec!['s', 'a', 'f', 'e'];
    if spells(text, filter, filter_end, &safe) && closes(text, close, '}') {
        Some(close + 2)
    } else {
        None
    }
}

/// A tag of a condition as the scan finds it.
struct Found {
    end: usize,
    opens: bool,
    shuts: bool,
}

/// The tag of a condition that begins at `i`, if one begins there.
fn statement(text: &Vec<char>, i: usize) -> (r: Option<Found>)
    requires
        opens_at(text@, i as int, '%'),
    ensures
        r is Some <==> statement_at(text@, i as int) is Some,
        r is Some ==> r->0.end == statement_at(text@, i as int)->0.end && i < r->0.end
            <= text.len() && statement_at(text@, i as int)->0.nesting == (if r->0.opens {
            1int
        } else if r->0.shuts {
            -1int
        } else {
            0int
        }),
{
    assert(i + 2 <= text.len());
    let word = skip_spaces(text, i + 2);
    let rest = skip_name(text, word);
    let name = skip_spaces(text, rest);
    let word_if = vec!['i', 'f'];
    let word_else = vec!['e', 'l', 's', 'e'];
    let word_endif = vec!['e', 'n', 'd', 'i', 'f'];
    if spells(text, word, rest, &word_if) {
        let close = skip_spaces(text, skip_name(text, name));
        if name > rest && begins_name(text, name) && closes(text, close, '%') {
            Some(Found { end: close + 2, opens: true, shuts: false })
        } else {
            None
        }
    } else if spells(text, word, rest, &word_else) && closes(text, name, '%') {
        Some(Found { end: name + 2, opens: false, shuts: false })
    } else if spells(text, word, rest, &word_endif) && closes(text, name, '%') {
        Some(Found { end: name + 2, opens: false, shuts: true })
    } else {
        None
    }
}

/// Where the remark ends whose text begins at `from`, if it ends.
fn end_of_remark(text: &Vec<char>, from: usize) -> (r: Option<usize>)
    requires
        from <= text.len(),
    ensures
        r is Some <==> remark_end(text@, from as int) is Some,
        r is Some ==> r->0 == remark_end(text@, from as int)->0 && from < r->0 <= text.len(),
{
    let mut i: usize = from;
    while i < text.len() && text.len() - i > 1
        invariant
            from <= i <= text.len(),
            remark_end(text@, from as int) == remark_end(text@, i as int),
        decreases text.len() - i,
    {
        if closes(text, i, '#') {
            return Some(i + 2);
        }
        i = i + 1;
    }
    None
}

/// Decides whether a source is one that the service accepts.
pub fn is_plain(text: &Vec<char>) -> (r: bool)
    ensures
        r == plain(text@),
{
    let mut i: usize = 0;
    let mut depth: usize = 0;
    while i < text.len()
        invariant
            i <= text.len(),
            depth <= MAX_NESTING,
            plain(text@) == plain_from(text@, i as int, depth as int),
        decreases text.len() - i,
    {
        if opens(text, i, '{') {
            match end_of_expression(text, i) {
                Some(end) => {
                    i = end;
                },
                None => {
                    return false;
                },
            }
        } else if opens(text, i, '%') {
            match statement(text, i) {
                Some(found) => {
                    if found.opens {
                        if depth == MAX_NESTING {
                            return false;
                        }
                        depth = depth + 1;
                    } else if found.shuts {
                        if depth == 0 {
                            return false;
                        }
                        depth = depth - 1;
                    }
                    i = found.end;
                },
                None => {
                    return false;
                },
            }
        } else if opens(text, i, '#') {
            match end_of_remark(text, i + 2) {
                Some(end) => {
                    i = end;
                },
                None => {
                    return false;
                },
            }
        } else {
            i = i + 1;
        }
    }
    true
}

} // verus!
