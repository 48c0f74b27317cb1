//! Shapes of declarations and calls that the formatting passes look for,
//! and the splitting and joining of output lines.

use super::lines::{is_namespace_or_module_block_header, namespace_or_module_spec};
use crate::config::options::strings_view;
use crate::source::{identifier_continue_spec, is_identifier_continue};
use crate::text::{
    chars_of, ends_with_char, ends_with_char_spec, ends_with_lit, ends_with_spec,
    is_ascii_alnum_spec, is_ascii_alphanumeric, is_ascii_digit, is_ascii_digit_spec,
    is_ascii_upper_spec, is_ascii_uppercase, is_lit, is_whitespace, matches_at, occurs_at,
    push_all, push_lit, starts_with_char, starts_with_char_spec, string_of, subrange, trim_end_spec,
    trim_spec, trim_start_spec, trimmed, trimmed_end, trimmed_start, unicode_white_space,
    char_index, contains_lit, find_char, len_utf8, lemma_char_index, starts_with_lit,
    starts_with_spec, trim_start_index, utf8_len_seq,
};
use vstd::prelude::*;

verus! {

/// The number of white-space characters at the end of `s`.
pub open spec fn white_suffix_len(s: Seq<char>) -> nat
    decreases s.len(),
{
    if s.len() > 0 && unicode_white_space(s.last()) {
        1 + white_suffix_len(s.drop_last())
    } else {
        0
    }
}

/// The number of `_` and ASCII letters and digits at the end of `s`.
pub open spec fn word_suffix_len(s: Seq<char>) -> nat
    decreases s.len(),
{
    if s.len() > 0 && (s.last() == '_' || is_ascii_alnum_spec(s.last())) {
        1 + word_suffix_len(s.drop_last())
    } else {
        0
    }
}

/// Where the called name before the paren at `open_column` of `chars`
/// starts: blanks before the paren skipped, then the run of `_` and ASCII
/// letters and digits; `None` where that run is empty or the column is 0 or
/// past the line.
pub open spec fn callee_start_spec(chars: Seq<char>, open_column: nat) -> Option<nat> {
    if open_column == 0 || open_column > chars.len() {
        None
    } else {
        let end = open_column - white_suffix_len(chars.take(open_column as int));
        let start = end - word_suffix_len(chars.take(end));
        if start < end {
            Some(start as nat)
        } else {
            None
        }
    }
}

/// Suffix runs never outgrow the text.
proof fn lemma_suffix_bounds(s: Seq<char>)
    ensures
        white_suffix_len(s) <= s.len(),
        word_suffix_len(s) <= s.len(),
    decreases s.len(),
{
    if s.len() > 0 {
        lemma_suffix_bounds(s.drop_last());
    }
}

/// Where the called name before the paren at `open_column` starts.
pub fn callee_name_start_before_open(line: &[char], open_column: usize) -> (r: Option<usize>)
    ensures
        match r {
            Some(v) => callee_start_spec(line@, open_column as nat) == Some(v as nat),
            None => callee_start_spec(line@, open_column as nat) is None,
        },
{
    if open_column == 0 || open_column > line.len() {
        return None;
    }
    let mut end = open_column;
    proof {
        lemma_suffix_bounds(line@.take(open_column as int));
    }
    while end > 0 && is_whitespace(line[end - 1])
        invariant
            end <= open_column <= line@.len(),
            (open_column - end) + white_suffix_len(line@.take(end as int)) == white_suffix_len(
                line@.take(open_column as int),
            ),
        decreases end,
    {
        assert(line@.take(end as int).drop_last() =~= line@.take(end - 1));
        end = end - 1;
    }
    if end > 0 {
        assert(line@.take(end as int).last() == line@[end - 1]);
    }
    let mut start = end;
    while start > 0 && (line[start - 1] == '_' || is_ascii_alphanumeric(line[start - 1]))
        invariant
            start <= end <= line@.len(),
            (end - start) + word_suffix_len(line@.take(start as int)) == word_suffix_len(
                line@.take(end as int),
            ),
        decreases start,
    {
        assert(line@.take(start as int).drop_last() =~= line@.take(start - 1));
        start = start - 1;
    }
    if start > 0 {
        assert(line@.take(start as int).last() == line@[start - 1]);
    }
    if start < end {
        Some(start)
    } else {
        None
    }
}

/// `trim_end_spec` keeps a prefix.
pub proof fn lemma_trim_end_prefix(s: Seq<char>)
    ensures
        trim_end_spec(s).len() <= s.len(),
        trim_end_spec(s) == s.take(trim_end_spec(s).len() as int),
    decreases s.len(),
{
    if s.len() > 0 && unicode_white_space(s.last()) {
        lemma_trim_end_prefix(s.drop_last());
        assert(s.drop_last().take(trim_end_spec(s).len() as int) =~= s.take(
            trim_end_spec(s).len() as int,
        ));
    } else {
        assert(s.take(s.len() as int) =~= s);
    }
}

/// The number of identifier characters at the end of `s`.
pub open spec fn ident_suffix_len(s: Seq<char>) -> nat
    decreases s.len(),
{
    if s.len() > 0 && identifier_continue_spec(s.last()) {
        1 + ident_suffix_len(s.drop_last())
    } else {
        0
    }
}

/// Whether `w` is a qualifier that may follow a constructor's parameter list.
pub open spec fn is_signature_qualifier(w: Seq<char>) -> bool {
    w == "const"@ || w == "volatile"@ || w == "noexcept"@ || w == "override"@ || w == "final"@
        || w == "mutable"@
}

/// Whether `rest` (without trailing blanks) ends with a parameter list,
/// once reference qualifiers and the qualifiers `const`, `volatile`,
/// `noexcept`, `override`, `final` and `mutable` are dropped from its end.
pub open spec fn ends_with_parameter_list(rest: Seq<char>) -> bool
    decreases rest.len(),
{
    if ends_with_char_spec(rest, ')') {
        true
    } else if ends_with_spec(rest, "&&"@) {
        proof {
            reveal_strlit("&&");
            lemma_trim_end_prefix(rest.take(rest.len() - 2));
        }
        ends_with_parameter_list(trim_end_spec(rest.take(rest.len() - 2)))
    } else if ends_with_char_spec(rest, '&') {
        proof {
            lemma_trim_end_prefix(rest.drop_last());
        }
        ends_with_parameter_list(trim_end_spec(rest.drop_last()))
    } else {
        let k = ident_suffix_len(rest);
        if k > 0 && k <= rest.len() && is_signature_qualifier(rest.skip(rest.len() - k)) {
            proof {
                lemma_trim_end_prefix(rest.take(rest.len() - k));
            }
            ends_with_parameter_list(trim_end_spec(rest.take(rest.len() - k)))
        } else {
            false
        }
    }
}

/// The number of identifier characters at the end of `s`.
fn ident_suffix(s: &[char]) -> (r: usize)
    ensures
        r == ident_suffix_len(s@),
        r <= s@.len(),
{
    let mut k: usize = 0;
    assert(s@.take(s@.len() as int) =~= s@);
    while k < s.len() && is_identifier_continue(s[s.len() - 1 - k])
        invariant
            k <= s@.len(),
            k + ident_suffix_len(s@.take(s@.len() - k)) == ident_suffix_len(s@),
        decreases s.len() - k,
    {
        assert(s@.take(s@.len() - k).last() == s@[s@.len() - 1 - k]);
        assert(s@.take(s@.len() - k).drop_last() =~= s@.take(s@.len() - k - 1));
        k = k + 1;
    }
    if k < s.len() {
        assert(s@.take(s@.len() - k).last() == s@[s@.len() - 1 - k]);
    }
    k
}

/// Whether `line` ends a constructor signature with its parameter list.
pub fn constructor_signature_ends_with_parameter_list(line: &[char]) -> (r: bool)
    ensures
        r == ends_with_parameter_list(trim_end_spec(line@)),
{
    proof {
        reveal_strlit("&&");
    }
    let mut rest = trimmed_end(line);
    loop
        invariant
            "&&"@.len() == 2,
            ends_with_parameter_list(rest@) == ends_with_parameter_list(trim_end_spec(line@)),
        decreases rest@.len(),
    {
        if ends_with_char(rest.as_slice(), ')') {
            return true;
        }
        if ends_with_lit(rest.as_slice(), "&&") {
            let head = subrange(rest.as_slice(), 0, rest.len() - 2);
            assert(head@ =~= rest@.take(rest@.len() - 2));
            proof {
                lemma_trim_end_prefix(head@);
            }
            rest = trimmed_end(head.as_slice());
            continue;
        }
        if ends_with_char(rest.as_slice(), '&') {
            let head = subrange(rest.as_slice(), 0, rest.len() - 1);
            assert(head@ =~= rest@.drop_last());
            proof {
                lemma_trim_end_prefix(head@);
            }
            rest = trimmed_end(head.as_slice());
            continue;
        }
        let k = ident_suffix(rest.as_slice());
        let word = subrange(rest.as_slice(), rest.len() - k, rest.len());
        assert(word@ =~= rest@.skip(rest@.len() - k));
        if k > 0 && (is_lit(word.as_slice(), "const") || is_lit(word.as_slice(), "volatile")
            || is_lit(word.as_slice(), "noexcept") || is_lit(word.as_slice(), "override")
            || is_lit(word.as_slice(), "final") || is_lit(word.as_slice(), "mutable")) {
            let head = subrange(rest.as_slice(), 0, rest.len() - k);
            assert(head@ =~= rest@.take(rest@.len() - k));
            proof {
                lemma_trim_end_prefix(head@);
            }
            rest = trimmed_end(head.as_slice());
            continue;
        }
        return false;
    }
}

/// The index of the first white-space character of `s`.
pub open spec fn first_white(s: Seq<char>) -> Option<nat>
    decreases s.len(),
{
    if s.len() == 0 {
        None
    } else if unicode_white_space(s[0]) {
        Some(0)
    } else {
        match first_white(s.skip(1)) {
            Some(i) => Some(i + 1),
            None => None,
        }
    }
}

/// The index of the first `c` in `s`.
pub open spec fn first_char(s: Seq<char>, c: char) -> Option<nat>
    decreases s.len(),
{
    if s.len() == 0 {
        None
    } else if s[0] == c {
        Some(0)
    } else {
        match first_char(s.skip(1), c) {
            Some(i) => Some(i + 1),
            None => None,
        }
    }
}

/// Whether position `a` comes before position `b`, a missing position
/// counting as after every other.
pub open spec fn before_spec(a: Option<nat>, b: Option<nat>) -> bool {
    match (a, b) {
        (Some(x), Some(y)) => x < y,
        (Some(_), None) => true,
        (None, _) => false,
    }
}

/// Whether `s` from index `i` on, in the given literal state, holds the colon
/// of an inline constructor initializer: outside literals, before any `?`,
/// right after `)` (blanks between aside) and followed by a space; the
/// answer is then whether the text before it has a `(` before its first
/// blank.
pub open spec fn inline_init_from(
    s: Seq<char>,
    i: int,
    in_string: bool,
    in_char: bool,
    escaped: bool,
    saw_question: bool,
) -> bool
    decreases s.len() - i,
{
    if i < 0 || i >= s.len() {
        false
    } else {
        let ch = s[i];
        if escaped {
            inline_init_from(s, i + 1, in_string, in_char, false, saw_question)
        } else if ch == '\\' && (in_string || in_char) {
            inline_init_from(s, i + 1, in_string, in_char, true, saw_question)
        } else if ch == '"' && !in_char {
            inline_init_from(s, i + 1, !in_string, in_char, false, saw_question)
        } else if ch == '\'' && !in_string {
            inline_init_from(s, i + 1, in_string, !in_char, false, saw_question)
        } else if in_string || in_char {
            inline_init_from(s, i + 1, in_string, in_char, false, saw_question)
        } else if ch == '?' {
            inline_init_from(s, i + 1, in_string, in_char, false, true)
        } else if ch == ':' && !saw_question && ends_with_char_spec(trim_end_spec(s.take(i)), ')')
            && starts_with_char_spec(s.skip(i + 1), ' ') {
            let before = trim_start_spec(s.take(i));
            before_spec(first_char(before, '('), first_white(before))
        } else {
            inline_init_from(s, i + 1, in_string, in_char, false, saw_question)
        }
    }
}

/// The index of the first white-space character of `s`.
fn find_white(s: &[char]) -> (r: Option<usize>)
    ensures
        match r {
            Some(v) => first_white(s@) == Some(v as nat),
            None => first_white(s@) is None,
        },
{
    let mut i: usize = 0;
    assert(s@.skip(0) =~= s@);
    while i < s.len()
        invariant
            i <= s@.len(),
            forall|j: int| 0 <= j < i ==> !unicode_white_space(#[trigger] s@[j]),
            match first_white(s@.skip(i as int)) {
                Some(v) => first_white(s@) == Some((v + i) as nat),
                None => first_white(s@) is None,
            },
        decreases s.len() - i,
    {
        assert(s@.skip(i as int)[0] == s@[i as int]);
        assert(s@.skip(i as int).skip(1) =~= s@.skip(i + 1));
        if is_whitespace(s[i]) {
            return Some(i);
        }
        i = i + 1;
    }
    None
}

/// The index of the first `c` in `s`.
fn find_first(s: &[char], c: char) -> (r: Option<usize>)
    ensures
        match r {
            Some(v) => first_char(s@, c) == Some(v as nat),
            None => first_char(s@, c) is None,
        },
{
    let mut i: usize = 0;
    assert(s@.skip(0) =~= s@);
    while i < s.len()
        invariant
            i <= s@.len(),
            match first_char(s@.skip(i as int), c) {
                Some(v) => first_char(s@, c) == Some((v + i) as nat),
                None => first_char(s@, c) is None,
            },
        decreases s.len() - i,
    {
        assert(s@.skip(i as int)[0] == s@[i as int]);
        assert(s@.skip(i as int).skip(1) =~= s@.skip(i + 1));
        if s[i] == c {
            return Some(i);
        }
        i = i + 1;
    }
    None
}

/// Whether `line` holds an inline constructor initializer colon (see
/// `inline_init_from`).
pub fn has_inline_constructor_initializer_colon(line: &[char]) -> (r: bool)
    ensures
        r == inline_init_from(line@, 0, false, false, false, false),
{
    let mut in_string = false;
    let mut in_char = false;
    let mut escaped = false;
    let mut saw_question = false;
    let mut i: usize = 0;
    while i < line.len()
        invariant
            i <= line@.len(),
            inline_init_from(line@, i as int, in_string, in_char, escaped, saw_question)
                == inline_init_from(line@, 0, false, false, false, false),
        decreases line.len() - i,
    {
        let ch = line[i];
        if escaped {
            escaped = false;
        } else if ch == '\\' && (in_string || in_char) {
            escaped = true;
        } else if ch == '"' && !in_char {
            in_string = !in_string;
        } else if ch == '\'' && !in_string {
            in_char = !in_char;
        } else if in_string || in_char {
        } else if ch == '?' {
            saw_question = true;
        } else if ch == ':' && !saw_question {
            let head = subrange(line, 0, i);
            assert(head@ =~= line@.take(i as int));
            let t = trimmed_end(head.as_slice());
            let tail = subrange(line, i + 1, line.len());
            assert(tail@ =~= line@.skip(i + 1));
            if ends_with_char(t.as_slice(), ')') && starts_with_char(tail.as_slice(), ' ') {
                let before = trimmed_start(head.as_slice());
                let open = find_first(before.as_slice(), '(');
                let space = find_white(before.as_slice());
                return match (open, space) {
                    (Some(x), Some(y)) => x < y,
                    (Some(_), None) => true,
                    (None, _) => false,
                };
            }
        }
        i = i + 1;
    }
    false
}

/// The fields of `s` between characters that cannot stand in an identifier.
pub open spec fn ident_fields(s: Seq<char>) -> Seq<Seq<char>>
    decreases s.len(),
{
    if s.len() == 0 {
        seq![seq![]]
    } else {
        let prev = ident_fields(s.drop_last());
        let c = s.last();
        if !identifier_continue_spec(c) {
            prev.push(seq![])
        } else {
            prev.update(prev.len() - 1, prev.last().push(c))
        }
    }
}

/// The non-empty fields of `fs`.
pub open spec fn nonempty_fields(fs: Seq<Seq<char>>) -> Seq<Seq<char>>
    decreases fs.len(),
{
    if fs.len() == 0 {
        seq![]
    } else {
        let prev = nonempty_fields(fs.drop_last());
        if fs.last().len() > 0 {
            prev.push(fs.last())
        } else {
            prev
        }
    }
}

/// Whether `line` is the head of a class split before its body whose
/// second word is an export macro: only identifier characters and blanks,
/// exactly two words, the first `class`, `struct`, `union` or `interface`,
/// the second of two or more characters among `_`, ASCII capitals and digits.
pub open spec fn split_export_head_spec(line: Seq<char>) -> bool {
    (forall|i: int|
        0 <= i < line.len() ==> identifier_continue_spec(#[trigger] line[i]) || unicode_white_space(
            line[i],
        )) && ({
        let w = nonempty_fields(ident_fields(line));
        w.len() == 2 && (w[0] == "class"@ || w[0] == "struct"@ || w[0] == "union"@ || w[0]
            == "interface"@) && w[1].len() > 1 && forall|j: int|
            0 <= j < w[1].len() ==> (w[1][j] == '_' || is_ascii_upper_spec(#[trigger] w[1][j])
                || is_ascii_digit_spec(w[1][j]))
    })
}

/// The views of a list of texts.
pub open spec fn texts_of(v: Seq<Vec<char>>) -> Seq<Seq<char>> {
    v.map_values(|t: Vec<char>| t@)
}

/// The non-empty fields of `s` between characters that cannot stand in an identifier.
fn ident_words(s: &[char]) -> (r: Vec<Vec<char>>)
    ensures
        texts_of(r@) == nonempty_fields(ident_fields(s@)),
{
    let mut done: Vec<Vec<char>> = Vec::new();
    let mut current: Vec<char> = Vec::new();
    let mut i: usize = 0;
    assert(s@.take(0) =~= Seq::<char>::empty());
    assert(texts_of(done@) =~= Seq::<Seq<char>>::empty());
    while i < s.len()
        invariant
            i <= s@.len(),
            ident_fields(s@.take(i as int)).len() >= 1,
            ident_fields(s@.take(i as int)).last() == current@,
            texts_of(done@) == nonempty_fields(ident_fields(s@.take(i as int)).drop_last()),
        decreases s.len() - i,
    {
        let c = s[i];
        let ghost prefix = s@.take(i + 1);
        let ghost prev = ident_fields(s@.take(i as int));
        assert(prefix.drop_last() =~= s@.take(i as int));
        assert(prefix.last() == c);
        if !is_identifier_continue(c) {
            let ghost before = texts_of(done@);
            if current.len() > 0 {
                let ghost cv = current@;
                done.push(current);
                assert(texts_of(done@) =~= before.push(cv));
            }
            assert(prev.push(seq![]).drop_last() =~= prev);
            assert(prev.drop_last().push(prev.last()) =~= prev);
            current = Vec::new();
        } else {
            current.push(c);
            assert(prev.update(prev.len() - 1, prev.last().push(c)).drop_last() =~= prev.drop_last());
        }
        i = i + 1;
    }
    assert(s@.take(i as int) =~= s@);
    let ghost fields = ident_fields(s@);
    let ghost before = texts_of(done@);
    if current.len() > 0 {
        let ghost cv = current@;
        done.push(current);
        assert(texts_of(done@) =~= before.push(cv));
    }
    assert(fields.drop_last().push(fields.last()) =~= fields);
    done
}

/// Whether `line` is a split class head with an export macro (see
/// `split_export_head_spec`).
pub fn is_split_export_head(line: &[char]) -> (r: bool)
    ensures
        r == split_export_head_spec(line@),
{
    let mut i: usize = 0;
    while i < line.len()
        invariant
            i <= line@.len(),
            forall|j: int|
                0 <= j < i ==> identifier_continue_spec(#[trigger] line@[j]) || unicode_white_space(
                    line@[j],
                ),
        decreases line.len() - i,
    {
        if !is_identifier_continue(line[i]) && !is_whitespace(line[i]) {
            return false;
        }
        i = i + 1;
    }
    let words = ident_words(line);
    let ghost w = texts_of(words@);
    if words.len() != 2 {
        return false;
    }
    assert(w[0] == words@[0]@);
    assert(w[1] == words@[1]@);
    let kind = words[0].as_slice();
    if !(is_lit(kind, "class") || is_lit(kind, "struct") || is_lit(kind, "union") || is_lit(
        kind,
        "interface",
    )) {
        return false;
    }
    let export = words[1].as_slice();
    if export.len() <= 1 {
        return false;
    }
    let mut j: usize = 0;
    while j < export.len()
        invariant
            j <= export@.len(),
            export@ == nonempty_fields(ident_fields(line@))[1],
            forall|k: int|
                0 <= k < j ==> (export@[k] == '_' || is_ascii_upper_spec(#[trigger] export@[k])
                    || is_ascii_digit_spec(export@[k])),
        decreases export.len() - j,
    {
        let c = export[j];
        if !(c == '_' || is_ascii_uppercase(c) || is_ascii_digit(c)) {
            return false;
        }
        j = j + 1;
    }
    true
}

/// The first index from `i` on at which `sep` occurs in `s`.
pub open spec fn occurrence_from(s: Seq<char>, sep: Seq<char>, i: int) -> Option<nat>
    decreases s.len() - i,
{
    if i < 0 || i >= s.len() || i + sep.len() > s.len() {
        None
    } else if occurs_at(s, sep, i) {
        Some(i as nat)
    } else {
        occurrence_from(s, sep, i + 1)
    }
}

/// An occurrence found from `i` on lies from `i` on and inside `s`.
pub proof fn lemma_occurrence_bounds(s: Seq<char>, sep: Seq<char>, i: int)
    ensures
        match occurrence_from(s, sep, i) {
            Some(k) => i <= k && k + sep.len() <= s.len() && occurs_at(s, sep, k as int),
            None => true,
        },
    decreases s.len() - i,
{
    if i >= 0 && i < s.len() && i + sep.len() <= s.len() && !occurs_at(s, sep, i) {
        lemma_occurrence_bounds(s, sep, i + 1);
    }
}

/// The pieces of `s` from `start` on between occurrences of `sep`, as
/// `str::split` gives them.
pub open spec fn split_from(s: Seq<char>, sep: Seq<char>, start: int) -> Seq<Seq<char>>
    decreases s.len() - start,
    when 0 <= start <= s.len() && sep.len() > 0
{
    match occurrence_from(s, sep, start) {
        Some(k) => {
            proof {
                lemma_occurrence_bounds(s, sep, start);
            }
            seq![s.subrange(start, k as int)] + split_from(s, sep, k as int + sep.len())
        },
        None => seq![s.skip(start)],
    }
}

/// The lines of `output` separated by `line_break`, without an empty last
/// line after a final line break.
pub open spec fn output_lines_spec(output: Seq<char>, line_break: Seq<char>) -> Seq<Seq<char>> {
    let parts = split_pieces(output, line_break);
    if parts.len() > 0 && parts.last().len() == 0 {
        parts.drop_last()
    } else {
        parts
    }
}

/// The pieces of `s` between occurrences of `sep`, as `str::split` gives
/// them; an empty separator stands before and after every character.
pub open spec fn split_pieces(s: Seq<char>, sep: Seq<char>) -> Seq<Seq<char>> {
    if sep.len() == 0 {
        seq![Seq::<char>::empty()] + Seq::new(s.len(), |i: int| seq![s[i]]) + seq![Seq::<char>::empty()]
    } else {
        split_from(s, sep, 0)
    }
}

/// The lines of `output` split between every two characters: an empty line,
/// then each character as a line of its own.
fn split_each_char(output: &[char]) -> (r: Vec<Vec<char>>)
    ensures
        texts_of(r@) == output_lines_spec(output@, Seq::<char>::empty()),
{
    let mut parts: Vec<Vec<char>> = Vec::new();
    parts.push(Vec::new());
    let mut i: usize = 0;
    while i < output.len()
        invariant
            i <= output@.len(),
            texts_of(parts@) =~= seq![Seq::<char>::empty()] + Seq::new(i as nat, |k: int| seq![output@[k]]),
        decreases output.len() - i,
    {
        let mut one: Vec<char> = Vec::new();
        one.push(output[i]);
        let ghost before = texts_of(parts@);
        parts.push(one);
        assert(texts_of(parts@) =~= before.push(seq![output@[i as int]]));
        i = i + 1;
    }
    proof {
        let pieces = split_pieces(output@, Seq::<char>::empty());
        assert(pieces.last().len() == 0);
        assert(pieces.drop_last() =~= texts_of(parts@));
    }
    parts
}

/// The lines of `output` separated by `line_break`.
pub fn split_output_lines(output: &[char], line_break: &[char]) -> (r: Vec<Vec<char>>)
    ensures
        texts_of(r@) == output_lines_spec(output@, line_break@),
{
    if line_break.len() == 0 {
        return split_each_char(output);
    }
    let mut parts: Vec<Vec<char>> = Vec::new();
    let mut start: usize = 0;
    let mut i: usize = 0;
    assert(texts_of(parts@) =~= Seq::<Seq<char>>::empty());
    assert(Seq::<Seq<char>>::empty() + split_from(output@, line_break@, 0) =~= split_from(
        output@,
        line_break@,
        0,
    ));
    while i < output.len()
        invariant
            start <= i <= output@.len(),
            line_break@.len() > 0,
            occurrence_from(output@, line_break@, start as int) == occurrence_from(
                output@,
                line_break@,
                i as int,
            ),
            texts_of(parts@) + split_from(output@, line_break@, start as int) == split_from(
                output@,
                line_break@,
                0,
            ),
        decreases output.len() - i,
    {
        if line_break.len() <= output.len() - i && matches_at(output, line_break, i) {
            let piece = subrange(output, start, i);
            let ghost before = texts_of(parts@);
            proof {
                lemma_occurrence_bounds(output@, line_break@, start as int);
            }
            assert(split_from(output@, line_break@, start as int) =~= seq![piece@] + split_from(
                output@,
                line_break@,
                i + line_break@.len(),
            ));
            parts.push(piece);
            assert(texts_of(parts@) =~= before.push(piece@));
            assert(before.push(piece@) + split_from(output@, line_break@, i + line_break@.len())
                =~= before + (seq![piece@] + split_from(
                output@,
                line_break@,
                i + line_break@.len(),
            )));
            start = i + line_break.len();
            i = start;
        } else {
            i = i + 1;
        }
    }
    let last = subrange(output, start, output.len());
    assert(occurrence_from(output@, line_break@, i as int) is None);
    assert(last@ =~= output@.skip(start as int));
    let ghost before = texts_of(parts@);
    parts.push(last);
    assert(texts_of(parts@) =~= before + seq![output@.skip(start as int)]);
    if parts[parts.len() - 1].len() == 0 {
        let ghost all = texts_of(parts@);
        parts.pop();
        assert(texts_of(parts@) =~= all.drop_last());
    }
    parts
}

/// The lines `ls` joined by `sep`.
pub open spec fn join_spec(ls: Seq<Seq<char>>, sep: Seq<char>) -> Seq<char>
    decreases ls.len(),
{
    if ls.len() == 0 {
        seq![]
    } else if ls.len() == 1 {
        ls[0]
    } else {
        join_spec(ls.drop_last(), sep) + sep + ls.last()
    }
}

/// The output of the post-processed lines: joined by the line break, with a
/// final line break where the input had one; nothing for no lines.
pub open spec fn finish_lines_spec(ls: Seq<Seq<char>>, line_break: Seq<char>, trailing: bool) -> Seq<
    char,
> {
    if ls.len() == 0 {
        seq![]
    } else if trailing {
        join_spec(ls, line_break) + line_break
    } else {
        join_spec(ls, line_break)
    }
}

/// The output of the post-processed lines.
pub fn finish_postprocessed_lines(lines: &Vec<String>, line_break: &str, trailing_break: bool) -> (r:
    String)
    ensures
        r@ == finish_lines_spec(strings_view(lines@), line_break@, trailing_break),
{
    let ghost ls = strings_view(lines@);
    let mut out: Vec<char> = Vec::new();
    if lines.len() == 0 {
        return string_of(out.as_slice());
    }
    let mut i: usize = 0;
    while i < lines.len()
        invariant
            i <= lines@.len(),
            ls == strings_view(lines@),
            lines@.len() > 0,
            i > 0 ==> out@ == join_spec(ls.take(i as int), line_break@),
            i == 0 ==> out@.len() == 0,
        decreases lines.len() - i,
    {
        if i > 0 {
            push_lit(&mut out, line_break);
        }
        let c = chars_of(lines[i].as_str());
        push_all(&mut out, c.as_slice());
        assert(ls.take(i + 1).drop_last() =~= ls.take(i as int));
        assert(ls.take(i + 1).last() == lines@[i as int]@);
        if i == 0 {
            assert(out@ =~= ls.take(1)[0]);
        }
        i = i + 1;
    }
    assert(ls.take(i as int) =~= ls);
    if trailing_break {
        push_lit(&mut out, line_break);
    }
    string_of(out.as_slice())
}

/// The index of the last line before `k` that is not blank.
pub open spec fn last_nonblank_before(ls: Seq<Seq<char>>, k: int) -> Option<nat>
    decreases k,
{
    if k <= 0 {
        None
    } else if trim_spec(ls[k - 1]).len() > 0 {
        Some((k - 1) as nat)
    } else {
        last_nonblank_before(ls, k - 1)
    }
}

/// Whether the last non-blank line of `input` before `before` opens a
/// namespace or a module.
pub open spec fn previous_namespace_spec(input: Seq<Seq<char>>, before: int) -> bool {
    match last_nonblank_before(input, before) {
        Some(j) => namespace_or_module_spec(input[j as int]),
        None => false,
    }
}

/// Whether the last non-blank line of `input` before `before` opens a
/// namespace or a module.
pub fn previous_line_is_namespace_header(input: &Vec<String>, before: usize) -> (r: bool)
    requires
        before <= input@.len(),
    ensures
        r == previous_namespace_spec(strings_view(input@), before as int),
{
    let ghost ls = strings_view(input@);
    let mut k: usize = before;
    while k > 0
        invariant
            k <= before <= input@.len(),
            ls == strings_view(input@),
            last_nonblank_before(ls, k as int) == last_nonblank_before(ls, before as int),
        decreases k,
    {
        let line = chars_of(input[k - 1].as_str());
        let t = trimmed(line.as_slice());
        if t.len() > 0 {
            return is_namespace_or_module_block_header(line.as_slice());
        }
        k = k - 1;
    }
    false
}

/// `n` spaces.
pub open spec fn spaces(n: nat) -> Seq<char> {
    Seq::new(n, |i: int| ' ')
}

/// A `return` of a call with a line comment, split after the call's open
/// parenthesis: the line up to that parenthesis, and the rest of the call on
/// a line of its own, indented by the leading white space's bytes and eleven
/// more. Only where the call's `);` follows the parenthesis.
pub open spec fn return_call_split_spec(s: Seq<char>) -> Option<(Seq<char>, Seq<char>)> {
    let trimmed = trim_start_spec(s);
    let lead = s.take(s.len() - trimmed.len());
    if starts_with_spec(trimmed, "return "@) && (exists|i: int| #[trigger] occurs_at(trimmed, "//"@, i)) {
        match char_index(s, '(') {
            Some(open) => if exists|j: int| #[trigger] occurs_at(s.skip(open + 1int), ");"@, j) {
                Some((s.take(open + 1int), spaces(utf8_len_seq(lead) + 11) + s.skip(open + 1int)))
            } else {
                None
            },
            None => None,
        }
    } else {
        None
    }
}

/// The UTF-8 length of `s[..k]`.
fn utf8_prefix_len(s: &[char], k: usize) -> (r: usize)
    requires
        k <= s@.len(),
        utf8_len_seq(s@.take(k as int)) <= usize::MAX,
    ensures
        r == utf8_len_seq(s@.take(k as int)),
{
    let mut n: usize = 0;
    let mut i: usize = 0;
    while i < k
        invariant
            i <= k <= s@.len(),
            n == utf8_len_seq(s@.take(i as int)),
            utf8_len_seq(s@.take(k as int)) <= usize::MAX,
        decreases k - i,
    {
        proof {
            assert(s@.take(i + 1).drop_last() =~= s@.take(i as int));
            lemma_utf8_prefix_grows(s@, i as int + 1, k as int);
        }
        n = n + len_utf8(s[i]);
        i = i + 1;
    }
    n
}

proof fn lemma_utf8_prefix_grows(s: Seq<char>, i: int, k: int)
    requires
        0 <= i <= k <= s.len(),
    ensures
        utf8_len_seq(s.take(i)) <= utf8_len_seq(s.take(k)),
    decreases k - i,
{
    if i < k {
        assert(s.take(k).drop_last() =~= s.take(k - 1));
        lemma_utf8_prefix_grows(s, i, k - 1);
    }
}

/// Splits a `return` of a call that carries a line comment after the call's
/// open parenthesis (see `return_call_split_spec`): `line` keeps the part up
/// to the parenthesis and the rest is returned as a new line. Where the line
/// has not that shape, it stays as it is and nothing is returned.
pub fn split_return_call_with_comment(line: &mut String) -> (r: Option<String>)
    requires
        utf8_len_seq(old(line)@) + 11 <= usize::MAX,
    ensures
        match r {
            Some(tail) => return_call_split_spec(old(line)@) == Some((final(line)@, tail@)),
            None => return_call_split_spec(old(line)@) is None && final(line)@ == old(line)@,
        },
{
    let s = chars_of(line.as_str());
    let k = trim_start_index(s.as_slice());
    let trimmed = subrange(s.as_slice(), k, s.len());
    proof {
        assert(s@.skip(k as int) =~= s@.subrange(k as int, s@.len() as int));
    }
    if !starts_with_lit(trimmed.as_slice(), "return ") || !contains_lit(trimmed.as_slice(), "//") {
        return None;
    }
    let open = match find_char(s.as_slice(), '(') {
        Some(o) => o,
        None => {
            proof {
                lemma_char_index(s@, '(', s@.len() as int);
            }
            return None;
        },
    };
    proof {
        lemma_char_index(s@, '(', open as int);
    }
    let tail = subrange(s.as_slice(), open + 1, s.len());
    proof {
        assert(s@.skip(open + 1) =~= s@.subrange(open + 1, s@.len() as int));
    }
    if !contains_lit(tail.as_slice(), ");") {
        return None;
    }
    proof {
        assert(s@.take(s@.len() - trimmed@.len()) =~= s@.take(k as int));
        lemma_utf8_prefix_grows(s@, k as int, s@.len() as int);
        assert(s@.take(s@.len() as int) =~= s@);
    }
    let lead = utf8_prefix_len(s.as_slice(), k);
    let head = subrange(s.as_slice(), 0, open + 1);
    proof {
        assert(s@.take(open + 1) =~= s@.subrange(0, open + 1));
    }
    let mut out: Vec<char> = Vec::new();
    let mut n: usize = 0;
    while n < lead + 11
        invariant
            n <= lead + 11,
            lead + 11 <= usize::MAX,
            out@ == spaces(n as nat),
        decreases lead + 11 - n,
    {
        out.push(' ');
        n = n + 1;
        proof {
            assert(out@ =~= spaces(n as nat));
        }
    }
    push_all(&mut out, tail.as_slice());
    proof {
        let sv = s@;
        // the call's `);` follows the parenthesis that `char_index` finds
        let jw = choose|j: int| #[trigger] occurs_at(tail@, ");"@, j);
        let o = char_index(sv, '(')->0;
        assert(o == open as nat);
        assert(occurs_at(sv.skip(o + 1int), ");"@, jw));
        assert(out@ =~= spaces(utf8_len_seq(sv.take(sv.len() - trim_start_spec(sv).len())) + 11)
            + sv.skip(open + 1int));
        assert(return_call_split_spec(sv) == Some((head@, out@)));
    }
    *line = string_of(head.as_slice());
    Some(string_of(out.as_slice()))
}

/// Whether a proper suffix of `sep` is also its prefix, so that two of its
/// occurrences can overlap.
pub open spec fn overlaps_itself(sep: Seq<char>) -> bool {
    exists|d: int| 0 < d < sep.len() && #[trigger] sep.skip(d) == sep.take(sep.len() - d)
}

proof fn lemma_join_prepend(a: Seq<char>, rest: Seq<Seq<char>>, sep: Seq<char>)
    requires
        rest.len() >= 1,
    ensures
        join_spec(seq![a] + rest, sep) == a + sep + join_spec(rest, sep),
    decreases rest.len(),
{
    let all = seq![a] + rest;
    if rest.len() == 1 {
        assert(all.drop_last() =~= seq![a]);
        assert(join_spec(all.drop_last(), sep) == a);
    } else {
        assert(all.drop_last() =~= seq![a] + rest.drop_last());
        lemma_join_prepend(a, rest.drop_last(), sep);
        assert(a + sep + join_spec(rest.drop_last(), sep) + sep + rest.last() =~= a + sep + (
        join_spec(rest.drop_last(), sep) + sep + rest.last()));
    }
}

proof fn lemma_no_occurrence_after(s: Seq<char>, sep: Seq<char>, i: int, m: int)
    requires
        sep.len() > 0,
        0 <= i <= m,
        occurrence_from(s, sep, i) is None,
    ensures
        !occurs_at(s, sep, m),
    decreases s.len() - i,
{
    if i < s.len() && i + sep.len() <= s.len() && i < m {
        lemma_no_occurrence_after(s, sep, i + 1, m);
    }
}

/// Joining the pieces of a split gives back what was split; the last piece
/// follows the last occurrence of the separator, and none comes after it.
proof fn lemma_split_rejoins(s: Seq<char>, sep: Seq<char>, start: int)
    requires
        0 <= start <= s.len(),
        sep.len() > 0,
    ensures
        split_from(s, sep, start).len() >= 1,
        join_spec(split_from(s, sep, start), sep) == s.skip(start),
        exists|j: int|
            start <= j <= s.len() && split_from(s, sep, start).last() == s.skip(j) && (j == start || (
            j >= start + sep.len() && occurs_at(s, sep, j - sep.len()))) && forall|m: int|
                j <= m ==> !#[trigger] occurs_at(s, sep, m),
    decreases s.len() - start,
{
    lemma_occurrence_bounds(s, sep, start);
    match occurrence_from(s, sep, start) {
        Some(k) => {
            let next = k as int + sep.len();
            lemma_split_rejoins(s, sep, next);
            let rest = split_from(s, sep, next);
            lemma_join_prepend(s.subrange(start, k as int), rest, sep);
            assert(s.subrange(start, k as int) + sep + s.skip(next) =~= s.skip(start)) by {
                assert(s.subrange(k as int, next) == sep);
            }
            assert((seq![s.subrange(start, k as int)] + rest).last() == rest.last());
            let j = choose|j: int|
                next <= j <= s.len() && rest.last() == s.skip(j) && (j == next || (j >= next
                    + sep.len() && occurs_at(s, sep, j - sep.len()))) && forall|m: int|
                    j <= m ==> !#[trigger] occurs_at(s, sep, m);
            assert(j >= start + sep.len() && occurs_at(s, sep, j - sep.len()));
        },
        None => {
            assert forall|m: int| start <= m implies !#[trigger] occurs_at(s, sep, m) by {
                lemma_no_occurrence_after(s, sep, start, m);
            }
        },
    }
}

/// Splitting an output into lines and finishing them again, with a final
/// line break where the output ended with one, gives the output back, for a
/// line break whose occurrences cannot overlap.
pub proof fn lemma_output_lines_rejoin(output: Seq<char>, line_break: Seq<char>)
    requires
        line_break.len() > 0,
        !overlaps_itself(line_break),
    ensures
        finish_lines_spec(
            output_lines_spec(output, line_break),
            line_break,
            ends_with_spec(output, line_break),
        ) == output,
{
    let sep = line_break;
    let parts = split_from(output, sep, 0);
    assert(split_pieces(output, sep) == parts);
    lemma_split_rejoins(output, sep, 0);
    assert(output.skip(0) =~= output);
    if parts.last().len() == 0 {
        let lines = parts.drop_last();
        if parts.len() == 1 {
            assert(output.len() == 0);
            assert(output =~= seq![]);
        } else {
            assert(parts.drop_last().len() >= 1);
            assert(output =~= join_spec(lines, sep) + sep + parts.last());
            assert(join_spec(lines, sep) + sep + parts.last() =~= join_spec(lines, sep) + sep);
            assert(output.skip(output.len() - sep.len()) =~= sep);
        }
    } else {
        if ends_with_spec(output, sep) {
            let p = output.len() - sep.len();
            assert(occurs_at(output, sep, p)) by {
                assert(output.subrange(p, output.len() as int) =~= output.skip(p));
            }
            let j = choose|j: int|
                0 <= j <= output.len() && parts.last() == output.skip(j) && (j == 0 || (j >= sep.len()
                    && occurs_at(output, sep, j - sep.len()))) && forall|m: int|
                    j <= m ==> !#[trigger] occurs_at(output, sep, m);
            assert(p < j);
            let q = j - sep.len();
            let d = p - q;
            assert(0 < d < sep.len());
            assert(sep.skip(d) =~= sep.take(sep.len() - d)) by {
                assert forall|x: int| 0 <= x < sep.len() - d implies sep.skip(d)[x] == sep.take(
                    sep.len() - d,
                )[x] by {
                    assert(output.subrange(q, q + sep.len())[d + x] == output[q + d + x]);
                    assert(output.subrange(p, p + sep.len())[x] == output[p + x]);
                }
            }
            assert(overlaps_itself(sep));
        }
    }
}

} // verus!
