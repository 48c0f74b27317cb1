//! Classifiers of single source lines and words: block headers, call shapes,
//! template and parenthesis nesting, and comment shapes.

use crate::config::grammar::trim_end_char_spec;
use crate::config::values_parse::trim_end_char;
use crate::source::{identifier_continue_spec, is_identifier_continue};
use crate::text::{
    char_index, contains_char, ends_with_char, ends_with_char_spec, ends_with_lit, ends_with_spec,
    find_char, is_ascii_alnum_spec, is_ascii_alpha_spec, is_ascii_alphabetic, is_ascii_alphanumeric,
    is_lit, is_whitespace, lemma_char_index, matches_at, occurs_at, starts_with_char,
    starts_with_char_spec, starts_with_lit, starts_with_spec, strip_prefix_lit, subrange,
    trim_end_spec, trim_spec, trim_start_spec, trimmed, trimmed_end, trimmed_start,
    unicode_white_space,
};
use vstd::prelude::*;

verus! {

/// Whether `line` opens a namespace: `namespace`, `namespace NAME` or
/// `inline namespace NAME`, blanks around it aside.
pub open spec fn namespace_header_spec(line: Seq<char>) -> bool {
    let t = trim_spec(line);
    t == "namespace"@ || starts_with_spec(t, "namespace "@) || starts_with_spec(
        t,
        "inline namespace "@,
    )
}

/// Whether `line` opens a namespace.
pub fn is_namespace_block_header(line: &[char]) -> (r: bool)
    ensures
        r == namespace_header_spec(line@),
{
    let t = trimmed(line);
    is_lit(t.as_slice(), "namespace") || starts_with_lit(t.as_slice(), "namespace ")
        || starts_with_lit(t.as_slice(), "inline namespace ")
}

/// Whether `line` opens a namespace or a module.
pub open spec fn namespace_or_module_spec(line: Seq<char>) -> bool {
    namespace_header_spec(line) || starts_with_spec(trim_start_spec(line), "module "@)
}

/// Whether `line` opens a namespace or a module.
pub fn is_namespace_or_module_block_header(line: &[char]) -> (r: bool)
    ensures
        r == namespace_or_module_spec(line@),
{
    if is_namespace_block_header(line) {
        return true;
    }
    let t = trimmed_start(line);
    starts_with_lit(t.as_slice(), "module ")
}

/// Whether `word` is a header whose block `break-blocks` keeps apart when it
/// closes another block (`else`, `catch` and their kin).
pub fn is_break_blocks_closing_header(word: &[char]) -> (r: bool)
    ensures
        r == (word@ == "else"@ || word@ == "catch"@ || word@ == "@catch"@ || word@
            == "@finally"@ || word@ == "__finally"@ || word@ == "__except"@ || word@
            == "finally"@),
{
    is_lit(word, "else") || is_lit(word, "catch") || is_lit(word, "@catch") || is_lit(
        word,
        "@finally",
    ) || is_lit(word, "__finally") || is_lit(word, "__except") || is_lit(word, "finally")
}

/// Whether `word` is a header whose block `break-blocks` sets apart.
pub fn is_break_blocks_opening_header(word: &[char]) -> (r: bool)
    ensures
        r == (word@ == "if"@ || word@ == "for"@ || word@ == "while"@ || word@ == "switch"@
            || word@ == "do"@ || word@ == "try"@ || word@ == "__try"@ || word@ == "case"@
            || word@ == "default"@),
{
    is_lit(word, "if") || is_lit(word, "for") || is_lit(word, "while") || is_lit(word, "switch")
        || is_lit(word, "do") || is_lit(word, "try") || is_lit(word, "__try") || is_lit(
        word,
        "case",
    ) || is_lit(word, "default")
}

/// Whether `word` opens an inline assembly block.
pub fn is_asm_block_header(word: &[char]) -> (r: bool)
    ensures
        r == (word@ == "_asm"@ || word@ == "__asm"@),
{
    is_lit(word, "_asm") || is_lit(word, "__asm")
}

/// Whether `line` holds a `{` with a `}` after it.
pub open spec fn one_line_block_spec(line: Seq<char>) -> bool {
    match char_index(line, '{') {
        Some(i) => line.skip(i as int + 1).contains('}'),
        None => false,
    }
}

/// Whether `line` holds a `{` with a `}` after it.
pub fn contains_one_line_block(line: &[char]) -> (r: bool)
    ensures
        r == one_line_block_spec(line@),
{
    let n = line.len();
    match find_char(line, '{') {
        Some(open) => {
            assert(open < n);
            proof {
                lemma_char_index(line@, '{', open as int);
            }
            let rest = subrange(line, open + 1, n);
            assert(rest@ =~= line@.skip(open + 1));
            contains_char(rest.as_slice(), '}')
        },
        None => {
            proof {
                lemma_char_index(line@, '{', line@.len() as int);
            }
            false
        },
    }
}

/// Whether some `->` in `line` follows a `)`, blanks between aside (a
/// lambda with a trailing return type).
pub open spec fn trailing_return_spec(line: Seq<char>) -> bool {
    exists|i: int|
        0 <= i && #[trigger] occurs_at(line, "->"@, i) && ends_with_char_spec(
            trim_end_spec(line.take(i)),
            ')',
        )
}

/// Whether some `->` in `line` follows a `)`.
pub fn lambda_header_has_trailing_return(line: &[char]) -> (r: bool)
    ensures
        r == trailing_return_spec(line@),
{
    let arrow = crate::text::chars_of("->");
    let mut i: usize = 0;
    while i < line.len()
        invariant
            i <= line@.len(),
            arrow@ == "->"@,
            forall|j: int|
                0 <= j < i ==> !(#[trigger] occurs_at(line@, "->"@, j) && ends_with_char_spec(
                    trim_end_spec(line@.take(j)),
                    ')',
                )),
        decreases line.len() - i,
    {
        if matches_at(line, arrow.as_slice(), i) {
            let head = subrange(line, 0, i);
            let t = trimmed_end(head.as_slice());
            if ends_with_char(t.as_slice(), ')') {
                assert(head@ =~= line@.take(i as int));
                return true;
            }
            assert(head@ =~= line@.take(i as int));
        }
        i = i + 1;
    }
    assert forall|j: int|
        0 <= j && #[trigger] occurs_at(line@, "->"@, j) implies !ends_with_char_spec(
        trim_end_spec(line@.take(j)),
        ')',
    ) by {
        if j >= line@.len() {
            reveal_strlit("->");
        }
    }
    false
}

/// The head of a line with a continuation backslash: trailing blanks and
/// backslashes dropped.
pub open spec fn backslash_head(line: Seq<char>) -> Seq<char> {
    trim_end_spec(trim_end_char_spec(trim_end_spec(line), '\\'))
}

/// Whether `head` is the keyword `kw`, alone or followed by a blank or `(`.
pub open spec fn starts_keyword(head: Seq<char>, kw: Seq<char>) -> bool {
    head == kw || starts_with_spec(head, kw + " "@) || starts_with_spec(head, kw + "("@)
}

/// Whether a line ending in a backslash opens a control body (`for`, `if`,
/// `while`, `switch`, `else`, `do`).
pub open spec fn backslash_control_spec(line: Seq<char>) -> bool {
    let h = backslash_head(line);
    starts_keyword(h, "for"@) || starts_keyword(h, "if"@) || starts_keyword(h, "while"@)
        || starts_keyword(h, "switch"@) || starts_keyword(h, "else"@) || starts_keyword(h, "do"@)
}

/// Whether `head` is the keyword `kw` (given with its blank and paren
/// forms), alone or followed by a blank or `(`.
fn head_starts_keyword(head: &[char], kw: &str, kw_blank: &str, kw_paren: &str) -> (r: bool)
    requires
        kw_blank@ == kw@ + " "@,
        kw_paren@ == kw@ + "("@,
    ensures
        r == starts_keyword(head@, kw@),
{
    is_lit(head, kw) || starts_with_lit(head, kw_blank) || starts_with_lit(head, kw_paren)
}

/// Whether a line ending in a backslash opens a control body.
pub fn line_opens_backslash_control_body(line: &[char]) -> (r: bool)
    ensures
        r == backslash_control_spec(line@),
{
    proof {
        reveal_strlit("for");
        reveal_strlit("for ");
        reveal_strlit("for(");
        reveal_strlit("if");
        reveal_strlit("if ");
        reveal_strlit("if(");
        reveal_strlit("while");
        reveal_strlit("while ");
        reveal_strlit("while(");
        reveal_strlit("switch");
        reveal_strlit("switch ");
        reveal_strlit("switch(");
        reveal_strlit("else");
        reveal_strlit("else ");
        reveal_strlit("else(");
        reveal_strlit("do");
        reveal_strlit("do ");
        reveal_strlit("do(");
        reveal_strlit(" ");
        reveal_strlit("(");
    }
    let a = trimmed_end(line);
    let b = trim_end_char(a.as_slice(), '\\');
    let h = trimmed_end(b.as_slice());
    let s = h.as_slice();
    assert("for "@ =~= "for"@ + " "@);
    assert("for("@ =~= "for"@ + "("@);
    assert("if "@ =~= "if"@ + " "@);
    assert("if("@ =~= "if"@ + "("@);
    assert("while "@ =~= "while"@ + " "@);
    assert("while("@ =~= "while"@ + "("@);
    assert("switch "@ =~= "switch"@ + " "@);
    assert("switch("@ =~= "switch"@ + "("@);
    assert("else "@ =~= "else"@ + " "@);
    assert("else("@ =~= "else"@ + "("@);
    assert("do "@ =~= "do"@ + " "@);
    assert("do("@ =~= "do"@ + "("@);
    head_starts_keyword(s, "for", "for ", "for(") || head_starts_keyword(s, "if", "if ", "if(")
        || head_starts_keyword(s, "while", "while ", "while(") || head_starts_keyword(
        s,
        "switch",
        "switch ",
        "switch(",
    ) || head_starts_keyword(s, "else", "else ", "else(") || head_starts_keyword(
        s,
        "do",
        "do ",
        "do(",
    )
}

/// The length of the run of identifier characters at the start of `s`.
pub open spec fn ident_prefix_len(s: Seq<char>) -> nat
    decreases s.len(),
{
    if s.len() > 0 && identifier_continue_spec(s[0]) {
        1 + ident_prefix_len(s.skip(1))
    } else {
        0
    }
}

/// Whether `line` starts with a word followed by `(`, blanks between aside.
pub open spec fn starts_call_spec(line: Seq<char>) -> bool {
    let w = ident_prefix_len(line);
    w > 0 && starts_with_char_spec(trim_start_spec(line.skip(w as int)), '(')
}

/// The length of the run of identifier characters at the start of `s`.
fn ident_prefix(s: &[char]) -> (r: usize)
    ensures
        r == ident_prefix_len(s@),
        r <= s@.len(),
{
    let mut i: usize = 0;
    assert(s@.skip(0) =~= s@);
    while i < s.len() && is_identifier_continue(s[i])
        invariant
            i <= s@.len(),
            i + ident_prefix_len(s@.skip(i as int)) == ident_prefix_len(s@),
        decreases s.len() - i,
    {
        assert(s@.skip(i as int)[0] == s@[i as int]);
        assert(s@.skip(i as int).skip(1) =~= s@.skip(i + 1));
        i = i + 1;
    }
    if i < s.len() {
        assert(s@.skip(i as int)[0] == s@[i as int]);
    }
    i
}

/// Whether `line` starts with a word followed by `(`.
pub fn line_starts_call_expression(line: &[char]) -> (r: bool)
    ensures
        r == starts_call_spec(line@),
{
    let w = ident_prefix(line);
    if w == 0 {
        return false;
    }
    let rest = subrange(line, w, line.len());
    assert(rest@ =~= line@.skip(w as int));
    let t = trimmed_start(rest.as_slice());
    starts_with_char(t.as_slice(), '(')
}

/// Whether `line` consists of `*` and `/` only and ends with `*/`.
pub open spec fn decorative_closer_spec(line: Seq<char>) -> bool {
    ends_with_spec(line, "*/"@) && forall|i: int|
        0 <= i < line.len() ==> (line[i] == '*' || line[i] == '/')
}

/// Whether `line` is a decorative block comment closer such as `****/`.
pub fn is_decorative_block_comment_closer(line: &[char]) -> (r: bool)
    ensures
        r == decorative_closer_spec(line@),
{
    if !ends_with_lit(line, "*/") {
        return false;
    }
    let mut i: usize = 0;
    while i < line.len()
        invariant
            i <= line@.len(),
            forall|j: int| 0 <= j < i ==> (line@[j] == '*' || line@[j] == '/'),
        decreases line.len() - i,
    {
        if line[i] != '*' && line[i] != '/' {
            return false;
        }
        i = i + 1;
    }
    true
}

/// Whether `line` starts with `word` followed by `(` or white space.
pub open spec fn starts_header_word_spec(line: Seq<char>, word: Seq<char>) -> bool {
    starts_with_spec(line, word) && line.len() > word.len() && (line[word.len() as int] == '('
        || unicode_white_space(line[word.len() as int]))
}

/// Whether `line` starts with `word` followed by `(` or white space.
pub fn comment_starts_header_word(line: &[char], word: &[char]) -> (r: bool)
    ensures
        r == starts_header_word_spec(line@, word@),
{
    if word.len() > line.len() {
        return false;
    }
    let head = subrange(line, 0, word.len());
    if !crate::text::seq_eq(head.as_slice(), word) {
        assert(line@.take(word@.len() as int) =~= head@);
        return false;
    }
    assert(line@.take(word@.len() as int) =~= head@);
    if line.len() == word.len() {
        return false;
    }
    let ch = line[word.len()];
    ch == '(' || is_whitespace(ch)
}

/// The length of the run of `_` and ASCII letters and digits at the start of `s`.
pub open spec fn word_prefix_len(s: Seq<char>) -> nat
    decreases s.len(),
{
    if s.len() > 0 && (s[0] == '_' || is_ascii_alnum_spec(s[0])) {
        1 + word_prefix_len(s.skip(1))
    } else {
        0
    }
}

/// The length of the run of `_` and ASCII letters and digits at the start of `s`.
fn word_prefix(s: &[char]) -> (r: usize)
    ensures
        r == word_prefix_len(s@),
        r <= s@.len(),
{
    let mut i: usize = 0;
    assert(s@.skip(0) =~= s@);
    while i < s.len() && (s[i] == '_' || is_ascii_alphanumeric(s[i]))
        invariant
            i <= s@.len(),
            i + word_prefix_len(s@.skip(i as int)) == word_prefix_len(s@),
        decreases s.len() - i,
    {
        assert(s@.skip(i as int)[0] == s@[i as int]);
        assert(s@.skip(i as int).skip(1) =~= s@.skip(i + 1));
        i = i + 1;
    }
    if i < s.len() {
        assert(s@.skip(i as int)[0] == s@[i as int]);
    }
    i
}

/// Whether a comment after a closing brace belongs to a declaration that
/// follows the brace on its line (not to `else`, `catch`, `while` and kin).
pub open spec fn closing_declaration_owns_comment_spec(line: Seq<char>) -> bool {
    let t = trim_start_spec(line);
    if !starts_with_char_spec(t, '}') {
        false
    } else {
        let tail = trim_start_spec(t.skip(1));
        if tail.len() == 0 || ends_with_char_spec(tail, '{') {
            false
        } else {
            let word = tail.take(word_prefix_len(tail) as int);
            !(word == "else"@ || word == "catch"@ || word == "while"@ || word == "__finally"@
                || word == "__except"@)
        }
    }
}

/// Whether a comment after a closing brace belongs to a declaration that
/// follows the brace on its line.
pub fn post_closing_declaration_owns_comment(line: &[char]) -> (r: bool)
    ensures
        r == closing_declaration_owns_comment_spec(line@),
{
    let t = trimmed_start(line);
    if !starts_with_char(t.as_slice(), '}') {
        return false;
    }
    let after = subrange(t.as_slice(), 1, t.len());
    assert(after@ =~= t@.skip(1));
    let tail = trimmed_start(after.as_slice());
    if tail.len() == 0 || ends_with_char(tail.as_slice(), '{') {
        return false;
    }
    let n = word_prefix(tail.as_slice());
    let word = subrange(tail.as_slice(), 0, n);
    assert(word@ =~= tail@.take(n as int));
    !(is_lit(word.as_slice(), "else") || is_lit(word.as_slice(), "catch") || is_lit(
        word.as_slice(),
        "while",
    ) || is_lit(word.as_slice(), "__finally") || is_lit(word.as_slice(), "__except"))
}

} // verus!
