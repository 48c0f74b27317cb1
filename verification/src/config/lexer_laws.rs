//! Laws of the option-file lexer: how blanks and commas separate tokens.

use super::grammar::{LexState, lex_step};
use vstd::prelude::*;

verus! {

/// Outside quotes and comments, a tab, a space and a comma each end the
/// token being read and do the same: the token read so far is moved to the
/// tokens (where it is not blank) and nothing of the separator is kept.
pub proof fn lemma_blanks_and_commas_separate(st: LexState)
    requires
        !st.stopped,
        !st.in_quote,
    ensures
        lex_step(st, '\t') == lex_step(st, ' '),
        lex_step(st, ',') == lex_step(st, ' '),
        lex_step(st, ' ').current.len() == 0,
        lex_step(st, ' ').line == st.line,
        !lex_step(st, ' ').in_quote,
        !lex_step(st, ' ').stopped,
        st.tokens.is_prefix_of(lex_step(st, ' ').tokens),
        lex_step(st, ' ').tokens.len() <= st.tokens.len() + 1,
{
    assert(st.tokens.is_prefix_of(lex_step(st, ' ').tokens)) by {
        let t = lex_step(st, ' ').tokens;
        assert(t.take(st.tokens.len() as int) =~= st.tokens);
    }
}

/// A character other than a separator, a quote, `#` or a line break is kept
/// in the token being read: it never ends a token.
pub proof fn lemma_other_characters_extend_the_token(st: LexState, ch: char)
    requires
        !st.stopped,
        !st.in_quote,
        ch != ' ',
        ch != '\t',
        ch != ',',
        ch != '\n',
        ch != '#',
        ch != '\'',
        ch != '"',
    ensures
        lex_step(st, ch).current == st.current.push(ch),
        lex_step(st, ch).tokens == st.tokens,
{
}

} // verus!
