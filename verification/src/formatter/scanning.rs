//! Scanners over one line: nesting of parentheses, brackets and template
//! angles, string and character literals, and the shapes they reveal.

use crate::source::{identifier_continue_spec, is_identifier_continue};
use crate::text::{
    ends_with_char, ends_with_char_spec, is_ascii_alnum_spec, is_ascii_alpha_spec,
    is_ascii_alphabetic, is_ascii_alphanumeric, is_ascii_digit, is_ascii_digit_spec,
    is_ascii_upper_spec, is_ascii_uppercase, is_lit, is_whitespace, len_utf8, subrange,
    trim_end_spec, trimmed_end, unicode_white_space, utf8_len_seq, utf8_len_spec,
};
use vstd::prelude::*;

verus! {

/// Whether `s`, read from nesting depth `depth` (and inside a string where
/// `in_string`, after a backslash where `escaped`), holds a comma outside
/// every parenthesis, bracket, brace and string.
pub open spec fn top_comma_from(s: Seq<char>, depth: nat, in_string: bool, escaped: bool) -> bool
    decreases s.len(),
{
    if s.len() == 0 {
        false
    } else {
        let ch = s[0];
        let rest = s.skip(1);
        if in_string {
            if escaped {
                top_comma_from(rest, depth, true, false)
            } else if ch == '\\' {
                top_comma_from(rest, depth, true, true)
            } else if ch == '"' {
                top_comma_from(rest, depth, false, false)
            } else {
                top_comma_from(rest, depth, true, false)
            }
        } else if ch == '"' {
            top_comma_from(rest, depth, true, escaped)
        } else if ch == '(' || ch == '[' || ch == '{' {
            top_comma_from(rest, depth + 1, false, escaped)
        } else if ch == ')' || ch == ']' || ch == '}' {
            top_comma_from(rest, if depth > 0 {
                (depth - 1) as nat
            } else {
                0
            }, false, escaped)
        } else if ch == ',' && depth == 0 {
            true
        } else {
            top_comma_from(rest, depth, false, escaped)
        }
    }
}

/// Whether `line` holds a comma outside every parenthesis, bracket, brace and string.
pub fn has_top_level_comma_text(line: &[char]) -> (r: bool)
    ensures
        r == top_comma_from(line@, 0, false, false),
{
    let mut depth: usize = 0;
    let mut in_string = false;
    let mut escaped = false;
    let mut i: usize = 0;
    assert(line@.skip(0) =~= line@);
    while i < line.len()
        invariant
            i <= line@.len(),
            depth <= i,
            top_comma_from(line@.skip(i as int), depth as nat, in_string, escaped)
                == top_comma_from(line@, 0, false, false),
        decreases line.len() - i,
    {
        let ch = line[i];
        assert(line@.skip(i as int)[0] == ch);
        assert(line@.skip(i as int).skip(1) =~= line@.skip(i + 1));
        if in_string {
            if escaped {
                escaped = false;
            } else if ch == '\\' {
                escaped = true;
            } else if ch == '"' {
                in_string = false;
            }
        } else if ch == '"' {
            in_string = true;
        } else if ch == '(' || ch == '[' || ch == '{' {
            depth = depth + 1;
        } else if ch == ')' || ch == ']' || ch == '}' {
            depth = if depth > 0 {
                depth - 1
            } else {
                0
            };
        } else if ch == ',' && depth == 0 {
            return true;
        }
        i = i + 1;
    }
    false
}

/// The deepest nesting of `<` in `s`, read from depth `depth` with the
/// deepest so far `max` (a `>` closes one level, never below zero).
pub open spec fn angle_max_from(s: Seq<char>, depth: nat, max: nat) -> nat
    decreases s.len(),
{
    if s.len() == 0 {
        max
    } else if s[0] == '<' {
        angle_max_from(s.skip(1), depth + 1, if depth + 1 > max {
            depth + 1
        } else {
            max
        })
    } else if s[0] == '>' {
        angle_max_from(s.skip(1), if depth > 0 {
            (depth - 1) as nat
        } else {
            0
        }, max)
    } else {
        angle_max_from(s.skip(1), depth, max)
    }
}

/// The deepest nesting of template angles in `line`.
pub fn max_template_angle_depth(line: &[char]) -> (r: usize)
    ensures
        r == angle_max_from(line@, 0, 0),
{
    let mut depth: usize = 0;
    let mut max_depth: usize = 0;
    let mut i: usize = 0;
    assert(line@.skip(0) =~= line@);
    while i < line.len()
        invariant
            i <= line@.len(),
            depth <= i,
            max_depth <= i,
            angle_max_from(line@.skip(i as int), depth as nat, max_depth as nat) == angle_max_from(
                line@,
                0,
                0,
            ),
        decreases line.len() - i,
    {
        let ch = line[i];
        assert(line@.skip(i as int)[0] == ch);
        assert(line@.skip(i as int).skip(1) =~= line@.skip(i + 1));
        if ch == '<' {
            depth = depth + 1;
            if depth > max_depth {
                max_depth = depth;
            }
        } else if ch == '>' {
            depth = if depth > 0 {
                depth - 1
            } else {
                0
            };
        }
        i = i + 1;
    }
    max_depth
}

/// Whether `s`, read from angle depth `angle` and parenthesis depth `paren`,
/// holds a comma at angle depth one outside parentheses and brackets.
pub open spec fn outer_template_comma_from(s: Seq<char>, angle: nat, paren: nat) -> bool
    decreases s.len(),
{
    if s.len() == 0 {
        false
    } else {
        let ch = s[0];
        let rest = s.skip(1);
        if ch == '(' || ch == '[' {
            outer_template_comma_from(rest, angle, paren + 1)
        } else if ch == ')' || ch == ']' {
            outer_template_comma_from(rest, angle, if paren > 0 {
                (paren - 1) as nat
            } else {
                0
            })
        } else if ch == '<' && paren == 0 {
            outer_template_comma_from(rest, angle + 1, paren)
        } else if ch == '>' && paren == 0 {
            outer_template_comma_from(rest, if angle > 0 {
                (angle - 1) as nat
            } else {
                0
            }, paren)
        } else if ch == ',' && paren == 0 && angle == 1 {
            true
        } else {
            outer_template_comma_from(rest, angle, paren)
        }
    }
}

/// Whether `line` holds a comma between the outermost template angles.
pub fn has_outer_template_comma(line: &[char]) -> (r: bool)
    ensures
        r == outer_template_comma_from(line@, 0, 0),
{
    let mut angle: usize = 0;
    let mut paren: usize = 0;
    let mut i: usize = 0;
    assert(line@.skip(0) =~= line@);
    while i < line.len()
        invariant
            i <= line@.len(),
            angle <= i,
            paren <= i,
            outer_template_comma_from(line@.skip(i as int), angle as nat, paren as nat)
                == outer_template_comma_from(line@, 0, 0),
        decreases line.len() - i,
    {
        let ch = line[i];
        assert(line@.skip(i as int)[0] == ch);
        assert(line@.skip(i as int).skip(1) =~= line@.skip(i + 1));
        if ch == '(' || ch == '[' {
            paren = paren + 1;
        } else if ch == ')' || ch == ']' {
            paren = if paren > 0 {
                paren - 1
            } else {
                0
            };
        } else if ch == '<' && paren == 0 {
            angle = angle + 1;
        } else if ch == '>' && paren == 0 {
            angle = if angle > 0 {
                angle - 1
            } else {
                0
            };
        } else if ch == ',' && paren == 0 && angle == 1 {
            return true;
        }
        i = i + 1;
    }
    false
}

/// The change in parenthesis depth over `s`, outside string and character
/// literals, read from depth `depth` in the given literal state.
pub open spec fn paren_delta_from(
    s: Seq<char>,
    depth: int,
    in_string: bool,
    in_char: bool,
    escaped: bool,
) -> int
    decreases s.len(),
{
    if s.len() == 0 {
        depth
    } else {
        let ch = s[0];
        let rest = s.skip(1);
        if escaped {
            paren_delta_from(rest, depth, in_string, in_char, false)
        } else if ch == '\\' && (in_string || in_char) {
            paren_delta_from(rest, depth, in_string, in_char, true)
        } else if ch == '"' && !in_char {
            paren_delta_from(rest, depth, !in_string, in_char, false)
        } else if ch == '\'' && !in_string {
            paren_delta_from(rest, depth, in_string, !in_char, false)
        } else if in_string || in_char {
            paren_delta_from(rest, depth, in_string, in_char, false)
        } else if ch == '(' {
            paren_delta_from(rest, depth + 1, in_string, in_char, false)
        } else if ch == ')' {
            paren_delta_from(rest, depth - 1, in_string, in_char, false)
        } else {
            paren_delta_from(rest, depth, in_string, in_char, false)
        }
    }
}

/// The change in parenthesis depth over `line`, outside string and
/// character literals.
pub fn paren_depth_delta(line: &[char]) -> (r: isize)
    requires
        line@.len() <= isize::MAX,
    ensures
        r == paren_delta_from(line@, 0, false, false, false),
{
    let mut depth: isize = 0;
    let mut in_string = false;
    let mut in_char = false;
    let mut escaped = false;
    let mut i: usize = 0;
    assert(line@.skip(0) =~= line@);
    while i < line.len()
        invariant
            i <= line@.len() <= isize::MAX,
            -(i as int) <= depth <= i,
            paren_delta_from(line@.skip(i as int), depth as int, in_string, in_char, escaped)
                == paren_delta_from(line@, 0, false, false, false),
        decreases line.len() - i,
    {
        let ch = line[i];
        assert(line@.skip(i as int)[0] == ch);
        assert(line@.skip(i as int).skip(1) =~= line@.skip(i + 1));
        if escaped {
            escaped = false;
        } else if ch == '\\' && (in_string || in_char) {
            escaped = true;
        } else if ch == '"' && !in_char {
            in_string = !in_string;
        } else if ch == '\'' && !in_string {
            in_char = !in_char;
        } else if in_string || in_char {
        } else if ch == '(' {
            depth = depth + 1;
        } else if ch == ')' {
            depth = depth - 1;
        }
        i = i + 1;
    }
    depth
}

/// Scanning `text` back from index `k` at depth `depth`: the index of the
/// `open` that brings the depth to zero, each `close` raising it.
pub open spec fn open_from_end(text: Seq<char>, k: int, depth: int, open: char, close: char) -> Option<
    nat,
>
    decreases k,
{
    if k <= 0 {
        None
    } else {
        let ch = text[k - 1];
        if ch == close {
            open_from_end(text, k - 1, depth + 1, open, close)
        } else if ch == open {
            if depth - 1 == 0 {
                Some((k - 1) as nat)
            } else {
                open_from_end(text, k - 1, depth - 1, open, close)
            }
        } else {
            open_from_end(text, k - 1, depth, open, close)
        }
    }
}

/// The byte offset in `text`, which ends with `close`, of the `open` that
/// matches that last `close`.
pub open spec fn matching_open_spec(text: Seq<char>, open: char, close: char) -> Option<nat> {
    if !ends_with_char_spec(text, close) {
        None
    } else {
        match open_from_end(text, text.len() as int, 0, open, close) {
            Some(i) => Some(utf8_len_seq(text.take(i as int))),
            None => None,
        }
    }
}

/// The UTF-8 length of the first `n` characters of `s`.
fn utf8_prefix_len(s: &[char], n: usize) -> (r: usize)
    requires
        n <= s@.len(),
        utf8_len_seq(s@.take(n as int)) <= usize::MAX,
    ensures
        r == utf8_len_seq(s@.take(n as int)),
{
    let mut total: usize = 0;
    let mut i: usize = 0;
    assert(s@.take(0) =~= Seq::<char>::empty());
    while i < n
        invariant
            i <= n <= s@.len(),
            total == utf8_len_seq(s@.take(i as int)),
            utf8_len_seq(s@.take(n as int)) <= usize::MAX,
        decreases n - i,
    {
        assert(s@.take(i + 1).drop_last() =~= s@.take(i as int));
        proof {
            lemma_utf8_prefix_grows(s@, (i + 1) as int, n as int);
        }
        total = total + len_utf8(s[i]);
        i = i + 1;
    }
    total
}

/// A longer prefix is no shorter in UTF-8.
proof fn lemma_utf8_prefix_grows(s: Seq<char>, a: int, b: int)
    requires
        0 <= a <= b <= s.len(),
    ensures
        utf8_len_seq(s.take(a)) <= utf8_len_seq(s.take(b)),
    decreases b - a,
{
    if a < b {
        assert(s.take(b).drop_last() =~= s.take(b - 1));
        lemma_utf8_prefix_grows(s, a, b - 1);
    }
}

/// The byte offset of the `open` that matches the `close` that ends `text`.
pub fn matching_open_index(text: &[char], open: char, close: char) -> (r: Option<usize>)
    requires
        text@.len() <= i32::MAX,
        utf8_len_seq(text@) <= usize::MAX,
    ensures
        match r {
            Some(v) => matching_open_spec(text@, open, close) == Some(v as nat),
            None => matching_open_spec(text@, open, close) is None,
        },
{
    if !ends_with_char(text, close) {
        return None;
    }
    let mut depth: i32 = 0;
    let mut k: usize = text.len();
    while k > 0
        invariant
            k <= text@.len() <= i32::MAX,
            utf8_len_seq(text@) <= usize::MAX,
            ends_with_char_spec(text@, close),
            -((text@.len() - k) as int) <= depth <= text@.len() - k,
            open_from_end(text@, k as int, depth as int, open, close) == open_from_end(
                text@,
                text@.len() as int,
                0,
                open,
                close,
            ),
        decreases k,
    {
        let ch = text[k - 1];
        if ch == close {
            depth = depth + 1;
        } else if ch == open {
            depth = depth - 1;
            if depth == 0 {
                assert(text@.take(text@.len() as int) =~= text@);
                proof {
                    lemma_utf8_prefix_grows(text@, (k - 1) as int, text@.len() as int);
                }
                return Some(utf8_prefix_len(text, k - 1));
            }
        }
        k = k - 1;
    }
    None
}

/// Whether `s` from index `i` on, at depth `depth` after the last
/// non-blank character `prev`, holds a `:` at depth zero that follows `)`
/// and is no part of `::`.
pub open spec fn init_colon_from(s: Seq<char>, i: int, depth: int, prev: Option<char>) -> bool
    decreases s.len() - i,
{
    if i >= s.len() || i < 0 {
        false
    } else {
        let ch = s[i];
        let next_prev = if !unicode_white_space(ch) {
            Some(ch)
        } else {
            prev
        };
        if ch == '(' || ch == '[' {
            init_colon_from(s, i + 1, depth + 1, next_prev)
        } else if ch == ')' || ch == ']' {
            init_colon_from(s, i + 1, depth - 1, next_prev)
        } else if ch == ':' && depth == 0 && !(i + 1 < s.len() && s[i + 1] == ':') && prev == Some(
            ')',
        ) {
            true
        } else {
            init_colon_from(s, i + 1, depth, next_prev)
        }
    }
}

/// Whether `line` holds a constructor's initializer colon: a `:` at depth
/// zero right after `)` (blanks between aside), no part of `::`.
pub fn line_has_constructor_init_colon(line: &[char]) -> (r: bool)
    requires
        line@.len() <= i32::MAX,
    ensures
        r == init_colon_from(line@, 0, 0, None),
{
    let mut depth: i32 = 0;
    let mut prev: Option<char> = None;
    let mut i: usize = 0;
    while i < line.len()
        invariant
            i <= line@.len() <= i32::MAX,
            -(i as int) <= depth <= i,
            init_colon_from(line@, i as int, depth as int, prev) == init_colon_from(
                line@,
                0,
                0,
                None,
            ),
        decreases line.len() - i,
    {
        let ch = line[i];
        if ch == '(' || ch == '[' {
            depth = depth + 1;
        } else if ch == ')' || ch == ']' {
            depth = depth - 1;
        } else if ch == ':' && depth == 0 && !(i + 1 < line.len() && line[i + 1] == ':') && prev
            == Some(')') {
            return true;
        }
        if !is_whitespace(ch) {
            prev = Some(ch);
        }
        i = i + 1;
    }
    false
}

/// The length of the run of characters at the end of `s` that may stand in
/// a called name (`_`, `:`, `~`, ASCII letters and digits).
pub open spec fn name_suffix_len(s: Seq<char>) -> nat
    decreases s.len(),
{
    if s.len() > 0 && (is_ascii_alnum_spec(s.last()) || s.last() == '_' || s.last() == ':'
        || s.last() == '~') {
        1 + name_suffix_len(s.drop_last())
    } else {
        0
    }
}

/// Whether `line` ends with `NAME(` and nothing else suggests more than a
/// plain call opening: no `=`, no `)` or `]` before the paren, and the name
/// starts with `_`, `~` or an ASCII letter.
pub open spec fn simple_open_paren_spec(line: Seq<char>) -> bool {
    let t = trim_end_spec(line);
    if !ends_with_char_spec(t, '(') {
        false
    } else {
        let before = trim_end_spec(t.drop_last());
        if before.len() == 0 || before.contains('=') || ends_with_char_spec(before, ')')
            || ends_with_char_spec(before, ']') {
            false
        } else {
            let k = name_suffix_len(before);
            k > 0 && ({
                let c = before[before.len() - k];
                c == '_' || c == '~' || is_ascii_alpha_spec(c)
            })
        }
    }
}

/// Whether `c` may stand in a called name.
fn is_name_char(c: char) -> (r: bool)
    ensures
        r == (is_ascii_alnum_spec(c) || c == '_' || c == ':' || c == '~'),
{
    is_ascii_alphanumeric(c) || c == '_' || c == ':' || c == '~'
}

/// The length of the name-like run at the end of `s`.
fn name_suffix(s: &[char]) -> (r: usize)
    ensures
        r == name_suffix_len(s@),
        r <= s@.len(),
{
    let mut k: usize = 0;
    assert(s@.take(s@.len() as int) =~= s@);
    while k < s.len() && is_name_char(s[s.len() - 1 - k])
        invariant
            k <= s@.len(),
            k + name_suffix_len(s@.take(s@.len() - k)) == name_suffix_len(s@),
        decreases s.len() - k,
    {
        assert(s@.take(s@.len() - k).last() == s@[s@.len() - 1 - k]);
        assert(s@.take(s@.len() - k).drop_last() =~= s@.take(s@.len() - k - 1));
        k = k + 1;
    }
    if k < s.len() {
        assert(s@.take(s@.len() - k).last() == s@[s@.len() - 1 - k]);
    }
    k
}

/// Whether `line` ends with a plain call opening `NAME(`.
pub fn simple_trailing_open_paren_line(line: &[char]) -> (r: bool)
    ensures
        r == simple_open_paren_spec(line@),
{
    let t = trimmed_end(line);
    if !ends_with_char(t.as_slice(), '(') {
        return false;
    }
    let head = subrange(t.as_slice(), 0, t.len() - 1);
    assert(head@ =~= t@.drop_last());
    let before = trimmed_end(head.as_slice());
    if before.len() == 0 || crate::text::contains_char(before.as_slice(), '=') || ends_with_char(
        before.as_slice(),
        ')',
    ) || ends_with_char(before.as_slice(), ']') {
        return false;
    }
    let k = name_suffix(before.as_slice());
    if k == 0 {
        return false;
    }
    let c = before[before.len() - k];
    c == '_' || c == '~' || is_ascii_alphabetic(c)
}

} // verus!
