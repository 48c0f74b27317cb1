//! Source-text rules shared by the option parser and the line classifiers:
//! identifier characters and line-ending normalization.

use crate::text::{is_alphabetic, is_alphanumeric, unicode_alphabetic, unicode_alphanumeric};
use vstd::prelude::*;

verus! {

/// Whether `c` may begin an identifier: a letter (in the Unicode sense), `_` or `$`.
pub open spec fn identifier_start_spec(c: char) -> bool {
    c == '_' || c == '$' || unicode_alphabetic(c)
}

/// Whether `c` may continue an identifier: a letter or digit (in the Unicode
/// sense), `_` or `$`.
pub open spec fn identifier_continue_spec(c: char) -> bool {
    c == '_' || c == '$' || unicode_alphanumeric(c)
}

/// Whether `s` is one identifier: a start character followed by continue characters.
pub open spec fn is_identifier_spec(s: Seq<char>) -> bool {
    s.len() > 0 && identifier_start_spec(s[0]) && forall|i: int|
        1 <= i < s.len() ==> identifier_continue_spec(#[trigger] s[i])
}

pub fn is_identifier_start(c: char) -> (r: bool)
    ensures
        r == identifier_start_spec(c),
{
    c == '_' || c == '$' || is_alphabetic(c)
}

pub fn is_identifier_continue(c: char) -> (r: bool)
    ensures
        r == identifier_continue_spec(c),
{
    c == '_' || c == '$' || is_alphanumeric(c)
}

/// Whether `s` spells one identifier.
pub fn is_identifier(s: &[char]) -> (r: bool)
    ensures
        r == is_identifier_spec(s@),
{
    if s.len() == 0 || !is_identifier_start(s[0]) {
        return false;
    }
    let mut i: usize = 1;
    while i < s.len()
        invariant
            1 <= i <= s@.len(),
            forall|j: int| 1 <= j < i ==> identifier_continue_spec(#[trigger] s@[j]),
        decreases s.len() - i,
    {
        if !is_identifier_continue(s[i]) {
            return false;
        }
        i = i + 1;
    }
    true
}

/// `s` with every `"\r\n"` and every lone `'\r'` replaced by `'\n'`.
pub open spec fn normalize_line_endings_spec(s: Seq<char>) -> Seq<char>
    decreases s.len(),
{
    if s.len() == 0 {
        s
    } else if s[0] == '\r' {
        if s.len() > 1 && s[1] == '\n' {
            seq!['\n'] + normalize_line_endings_spec(s.skip(2))
        } else {
            seq!['\n'] + normalize_line_endings_spec(s.skip(1))
        }
    } else {
        seq![s[0]] + normalize_line_endings_spec(s.skip(1))
    }
}

/// `s` with Windows and old Mac line endings turned into `'\n'`.
pub fn normalize_line_endings(s: &[char]) -> (r: Vec<char>)
    ensures
        r@ == normalize_line_endings_spec(s@),
{
    let mut out: Vec<char> = Vec::new();
    let mut i: usize = 0;
    assert(s@.skip(0) =~= s@);
    while i < s.len()
        invariant
            i <= s@.len(),
            out@ + normalize_line_endings_spec(s@.skip(i as int)) == normalize_line_endings_spec(
                s@,
            ),
        decreases s.len() - i,
    {
        let ghost rest = s@.skip(i as int);
        if s[i] == '\r' {
            out.push('\n');
            if i + 1 < s.len() && s[i + 1] == '\n' {
                assert(rest.skip(2) =~= s@.skip(i + 2));
                i = i + 2;
            } else {
                assert(rest.skip(1) =~= s@.skip(i + 1));
                i = i + 1;
            }
        } else {
            out.push(s[i]);
            assert(rest.skip(1) =~= s@.skip(i + 1));
            i = i + 1;
        }
        assert(out@ + normalize_line_endings_spec(s@.skip(i as int)) =~= normalize_line_endings_spec(
            s@,
        ));
    }
    assert(out@ + normalize_line_endings_spec(s@.skip(i as int)) =~= out@);
    out
}

/// Text without a carriage return is left as it is.
proof fn lemma_normalize_keeps_plain_text(s: Seq<char>)
    requires
        !s.contains('\r'),
    ensures
        normalize_line_endings_spec(s) == s,
    decreases s.len(),
{
    if s.len() > 0 {
        assert(s[0] != '\r');
        assert(!s.skip(1).contains('\r')) by {
            if s.skip(1).contains('\r') {
                let i = choose|i: int| 0 <= i < s.skip(1).len() && s.skip(1)[i] == '\r';
                assert(s[i + 1] == '\r');
            }
        }
        lemma_normalize_keeps_plain_text(s.skip(1));
        assert(seq![s[0]] + s.skip(1) =~= s);
    }
}

/// Normalized text holds no carriage return.
proof fn lemma_normalized_has_no_cr(s: Seq<char>)
    ensures
        !normalize_line_endings_spec(s).contains('\r'),
    decreases s.len(),
{
    if s.len() > 0 {
        let n = normalize_line_endings_spec(s);
        let (head, rest) = if s[0] == '\r' {
            if s.len() > 1 && s[1] == '\n' {
                lemma_normalized_has_no_cr(s.skip(2));
                ('\n', normalize_line_endings_spec(s.skip(2)))
            } else {
                lemma_normalized_has_no_cr(s.skip(1));
                ('\n', normalize_line_endings_spec(s.skip(1)))
            }
        } else {
            lemma_normalized_has_no_cr(s.skip(1));
            (s[0], normalize_line_endings_spec(s.skip(1)))
        };
        assert(n == seq![head] + rest);
        if n.contains('\r') {
            let i = choose|i: int| 0 <= i < n.len() && n[i] == '\r';
            if i > 0 {
                assert(rest[i - 1] == '\r');
            }
        }
    }
}

/// Normalizing line endings twice gives what normalizing once gives, and
/// the result holds no carriage return.
pub proof fn lemma_normalize_line_endings_idempotent(s: Seq<char>)
    ensures
        !normalize_line_endings_spec(s).contains('\r'),
        normalize_line_endings_spec(normalize_line_endings_spec(s)) == normalize_line_endings_spec(s),
{
    lemma_normalized_has_no_cr(s);
    lemma_normalize_keeps_plain_text(normalize_line_endings_spec(s));
}

} // verus!
