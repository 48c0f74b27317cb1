//! Laws of command-line batches: one batch of arguments does what its two
//! halves do one after the other.

use super::actions::{Action, OptionSource, lists_after, options_after};
use super::apply::{command_line_actions, command_line_tokens};
use super::grammar::tokens_actions_spec;
use super::options::{FormatOptions, Lists};
use vstd::prelude::*;

verus! {

/// The actions of two token lists in a row: those of the first, and, where
/// it holds no error, those of the second after them.
proof fn lemma_tokens_actions_concat(
    source: OptionSource,
    path: Seq<char>,
    x: Seq<(Seq<char>, nat)>,
    y: Seq<(Seq<char>, nat)>,
)
    ensures
        tokens_actions_spec(source, path, x + y) == (if tokens_actions_spec(source, path, x).1 is Some {
            tokens_actions_spec(source, path, x)
        } else {
            (
                tokens_actions_spec(source, path, x).0 + tokens_actions_spec(source, path, y).0,
                tokens_actions_spec(source, path, y).1,
            )
        }),
    decreases y.len(),
{
    if y.len() == 0 {
        assert(x + y =~= x);
        assert(tokens_actions_spec(source, path, x).0 + seq![] =~= tokens_actions_spec(
            source,
            path,
            x,
        ).0);
    } else {
        assert((x + y).drop_last() =~= x + y.drop_last());
        assert((x + y).last() == y.last());
        lemma_tokens_actions_concat(source, path, x, y.drop_last());
        let ax = tokens_actions_spec(source, path, x).0;
        let ay = tokens_actions_spec(source, path, y.drop_last()).0;
        assert forall|more: Seq<Action<Seq<char>>>| #![trigger ax + ay + more]
            ax + ay + more =~= ax + (ay + more) by {}
    }
}

/// Applying two runs of actions in a row is applying them as one run.
proof fn lemma_options_after_concat(x: Seq<Action<Seq<char>>>, y: Seq<Action<Seq<char>>>, o: FormatOptions)
    ensures
        options_after(x + y, o) == options_after(y, options_after(x, o)),
    decreases y.len(),
{
    if y.len() == 0 {
        assert(x + y =~= x);
    } else {
        assert((x + y).drop_last() =~= x + y.drop_last());
        assert((x + y).last() == y.last());
        lemma_options_after_concat(x, y.drop_last(), o);
    }
}

/// Applying two runs of actions to the word lists in a row is applying them
/// as one run.
proof fn lemma_lists_after_concat(x: Seq<Action<Seq<char>>>, y: Seq<Action<Seq<char>>>, l: Lists)
    ensures
        lists_after(x + y, l) == lists_after(y, lists_after(x, l)),
    decreases y.len(),
{
    if y.len() == 0 {
        assert(x + y =~= x);
    } else {
        assert((x + y).drop_last() =~= x + y.drop_last());
        assert((x + y).last() == y.last());
        lemma_lists_after_concat(x, y.drop_last(), l);
    }
}

/// One batch of command-line arguments `a` then `b` is in error exactly
/// where `a` or `b` is (with `a`'s error first), and where neither is, it
/// sets what applying `a` and then `b` sets.
pub proof fn lemma_command_line_batches_compose(a: Seq<String>, b: Seq<String>, o: FormatOptions, l: Lists)
    ensures
        (command_line_actions(a + b).1 is None) == (command_line_actions(a).1 is None
            && command_line_actions(b).1 is None),
        command_line_actions(a).1 is Some ==> command_line_actions(a + b).1 == command_line_actions(
            a,
        ).1,
        command_line_actions(a).1 is None ==> command_line_actions(a + b).1 == command_line_actions(
            b,
        ).1,
        command_line_actions(a + b).1 is None ==> options_after(command_line_actions(a + b).0, o)
            == options_after(command_line_actions(b).0, options_after(command_line_actions(a).0, o)),
        command_line_actions(a + b).1 is None ==> lists_after(command_line_actions(a + b).0, l)
            == lists_after(command_line_actions(b).0, lists_after(command_line_actions(a).0, l)),
{
    assert(command_line_tokens(a + b) =~= command_line_tokens(a) + command_line_tokens(b));
    lemma_tokens_actions_concat(
        OptionSource::CommandLine,
        "<command-line>"@,
        command_line_tokens(a),
        command_line_tokens(b),
    );
    lemma_options_after_concat(command_line_actions(a).0, command_line_actions(b).0, o);
    lemma_lists_after_concat(command_line_actions(a).0, command_line_actions(b).0, l);
}

} // verus!
