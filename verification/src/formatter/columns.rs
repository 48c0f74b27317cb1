//! Visual columns: how wide text is on screen, tabs advancing to the next
//! tab stop.

use crate::text::{len_utf8, utf8_len_spec};
use vstd::prelude::*;

verus! {

/// The column after a tab at column `col`: the next multiple of `tw`.
pub open spec fn tab_stop(col: nat, tw: nat) -> nat {
    (col + tw - col % tw) as nat
}

/// The column after the text `text` starts at column `col`: a tab advances
/// to the next tab stop, any other character by its UTF-8 length.
pub open spec fn width_after(text: Seq<char>, col: nat, tw: nat) -> nat
    decreases text.len(),
{
    if text.len() == 0 {
        col
    } else {
        let next = if text[0] == '\t' {
            tab_stop(col, tw)
        } else {
            col + utf8_len_spec(text[0])
        };
        width_after(text.skip(1), next, tw)
    }
}

/// `tw`, or 1 where it is 0.
pub open spec fn at_least_one(tw: usize) -> nat {
    if tw == 0 {
        1
    } else {
        tw as nat
    }
}

/// Text never moves the column back.
pub proof fn lemma_width_grows(text: Seq<char>, col: nat, tw: nat)
    requires
        tw > 0,
    ensures
        width_after(text, col, tw) >= col,
    decreases text.len(),
{
    if text.len() > 0 {
        let next = if text[0] == '\t' {
            tab_stop(col, tw)
        } else {
            col + utf8_len_spec(text[0])
        };
        assert(col % tw < tw) by (nonlinear_arith)
            requires
                tw > 0,
        ;
        lemma_width_grows(text.skip(1), next, tw);
    }
}

/// The width of `text` written from column `start_column` (a tab width of 0
/// counts as 1).
pub fn visual_width_from(text: &[char], start_column: usize, tab_width: usize) -> (r: usize)
    requires
        width_after(text@, start_column as nat, at_least_one(tab_width)) <= usize::MAX,
    ensures
        r == width_after(text@, start_column as nat, at_least_one(tab_width)) - start_column,
{
    let tw: usize = if tab_width == 0 {
        1
    } else {
        tab_width
    };
    let ghost goal = width_after(text@, start_column as nat, tw as nat);
    let mut column: usize = start_column;
    let mut i: usize = 0;
    assert(text@.skip(0) =~= text@);
    proof {
        lemma_width_grows(text@, start_column as nat, tw as nat);
    }
    while i < text.len()
        invariant
            tw == at_least_one(tab_width),
            tw > 0,
            i <= text@.len(),
            start_column <= column,
            goal == width_after(text@, start_column as nat, tw as nat),
            goal <= usize::MAX,
            width_after(text@.skip(i as int), column as nat, tw as nat) == goal,
        decreases text.len() - i,
    {
        let ch = text[i];
        let ghost rest = text@.skip(i as int);
        assert(rest[0] == ch);
        assert(rest.skip(1) =~= text@.skip(i + 1));
        let ghost next: nat = if ch == '\t' {
            tab_stop(column as nat, tw as nat)
        } else {
            (column + utf8_len_spec(ch)) as nat
        };
        proof {
            lemma_width_grows(rest.skip(1), next, tw as nat);
            assert(column % tw < tw) by (nonlinear_arith)
                requires
                    tw > 0,
            ;
        }
        if ch == '\t' {
            column = column + (tw - column % tw);
        } else {
            column = column + len_utf8(ch);
        }
        i = i + 1;
    }
    column - start_column
}

/// The column after the leading spaces and tabs of `line`, from column `col`.
pub open spec fn leading_width(line: Seq<char>, col: nat, tw: nat) -> nat
    decreases line.len(),
{
    if line.len() == 0 {
        col
    } else if line[0] == '\t' {
        leading_width(line.skip(1), tab_stop(col, tw), tw)
    } else if line[0] == ' ' {
        leading_width(line.skip(1), col + 1, tw)
    } else {
        col
    }
}

/// Whether the leading spaces and tabs of `line` hold a tab.
pub open spec fn leading_tab(line: Seq<char>) -> bool
    decreases line.len(),
{
    if line.len() == 0 {
        false
    } else if line[0] == '\t' {
        true
    } else if line[0] == ' ' {
        leading_tab(line.skip(1))
    } else {
        false
    }
}

/// Leading blanks never move the column back.
pub proof fn lemma_leading_grows(line: Seq<char>, col: nat, tw: nat)
    requires
        tw > 0 || !leading_tab(line),
    ensures
        leading_width(line, col, tw) >= col,
    decreases line.len(),
{
    if line.len() > 0 {
        if line[0] == '\t' {
            assert(col % tw < tw) by (nonlinear_arith)
                requires
                    tw > 0,
            ;
            lemma_leading_grows(line.skip(1), tab_stop(col, tw), tw);
        } else if line[0] == ' ' {
            lemma_leading_grows(line.skip(1), col + 1, tw);
        }
    }
}

/// The width of the leading spaces and tabs of `line`.
pub fn leading_visual_width(line: &[char], tab_width: usize) -> (r: usize)
    requires
        tab_width > 0 || !leading_tab(line@),
        leading_width(line@, 0, tab_width as nat) <= usize::MAX,
    ensures
        r == leading_width(line@, 0, tab_width as nat),
{
    let ghost goal = leading_width(line@, 0, tab_width as nat);
    let mut column: usize = 0;
    let mut i: usize = 0;
    assert(line@.skip(0) =~= line@);
    proof {
        lemma_leading_grows(line@, 0, tab_width as nat);
    }
    while i < line.len()
        invariant
            i <= line@.len(),
            goal <= usize::MAX,
            goal == leading_width(line@, 0, tab_width as nat),
            tab_width > 0 || !leading_tab(line@.skip(i as int)),
            leading_width(line@.skip(i as int), column as nat, tab_width as nat) == goal,
            column <= goal,
        decreases line.len() - i,
    {
        let ch = line[i];
        let ghost rest = line@.skip(i as int);
        assert(rest[0] == ch);
        assert(rest.skip(1) =~= line@.skip(i + 1));
        if ch == '\t' {
            proof {
                assert(column % tab_width < tab_width) by (nonlinear_arith)
                    requires
                        tab_width > 0,
                ;
                lemma_leading_grows(rest.skip(1), tab_stop(column as nat, tab_width as nat), tab_width as nat);
            }
            column = column + (tab_width - column % tab_width);
        } else if ch == ' ' {
            proof {
                lemma_leading_grows(rest.skip(1), (column + 1) as nat, tab_width as nat);
            }
            column = column + 1;
        } else {
            return column;
        }
        i = i + 1;
    }
    column
}

/// The number of leading spaces and tabs that `drop_leading_columns` drops:
/// blanks are taken while the column, from `col`, is below `drop`.
pub open spec fn dropped_count(line: Seq<char>, col: nat, drop: nat, tw: nat) -> nat
    decreases line.len(),
{
    if line.len() == 0 || col >= drop {
        0
    } else if line[0] == '\t' {
        1 + dropped_count(line.skip(1), tab_stop(col, tw), drop, tw)
    } else if line[0] == ' ' {
        1 + dropped_count(line.skip(1), col + 1, drop, tw)
    } else {
        0
    }
}

/// Dropping never takes more than the line.
pub proof fn lemma_dropped_count_bound(line: Seq<char>, col: nat, drop: nat, tw: nat)
    ensures
        dropped_count(line, col, drop, tw) <= line.len(),
    decreases line.len(),
{
    if line.len() > 0 && col < drop {
        if line[0] == '\t' {
            lemma_dropped_count_bound(line.skip(1), tab_stop(col, tw), drop, tw);
        } else if line[0] == ' ' {
            lemma_dropped_count_bound(line.skip(1), col + 1, drop, tw);
        }
    }
}

/// Whether dropping reaches a tab (where a tab width is needed).
pub open spec fn drop_reaches_tab(line: Seq<char>, col: nat, drop: nat) -> bool
    decreases line.len(),
{
    if line.len() == 0 || col >= drop {
        false
    } else if line[0] == '\t' {
        true
    } else if line[0] == ' ' {
        drop_reaches_tab(line.skip(1), col + 1, drop)
    } else {
        false
    }
}

/// `line` without the leading blanks that fill its first `drop` columns.
pub fn drop_leading_columns(line: &[char], drop: usize, tab_width: usize) -> (r: Vec<char>)
    requires
        tab_width > 0 || !drop_reaches_tab(line@, 0, drop as nat),
        drop + tab_width <= usize::MAX,
    ensures
        r@ == line@.skip(dropped_count(line@, 0, drop as nat, tab_width as nat) as int),
        dropped_count(line@, 0, drop as nat, tab_width as nat) <= line@.len(),
{
    let mut column: usize = 0;
    let mut i: usize = 0;
    assert(line@.skip(0) =~= line@);
    proof {
        lemma_dropped_count_bound(line@, 0, drop as nat, tab_width as nat);
    }
    while i < line.len()
        invariant
            i <= line@.len(),
            drop + tab_width <= usize::MAX,
            tab_width > 0 || !drop_reaches_tab(line@.skip(i as int), column as nat, drop as nat),
            column < drop || i == 0 || column <= drop + tab_width,
            i + dropped_count(line@.skip(i as int), column as nat, drop as nat, tab_width as nat)
                == dropped_count(line@, 0, drop as nat, tab_width as nat),
            i + dropped_count(line@.skip(i as int), column as nat, drop as nat, tab_width as nat)
                <= line@.len(),
        ensures
            dropped_count(line@.skip(i as int), column as nat, drop as nat, tab_width as nat) == 0,
        decreases line.len() - i,
    {
        let ghost rest = line@.skip(i as int);
        if column >= drop {
            break;
        }
        let ch = line[i];
        assert(rest[0] == ch);
        assert(rest.skip(1) =~= line@.skip(i + 1));
        proof {
            lemma_dropped_count_bound(rest.skip(1), 0, 0, 1);
        }
        if ch == '\t' {
            assert(column % tab_width < tab_width) by (nonlinear_arith)
                requires
                    tab_width > 0,
            ;
            proof {
                lemma_dropped_count_bound(rest.skip(1), tab_stop(column as nat, tab_width as nat), drop as nat, tab_width as nat);
            }
            column = column + (tab_width - column % tab_width);
        } else if ch == ' ' {
            proof {
                lemma_dropped_count_bound(rest.skip(1), (column + 1) as nat, drop as nat, tab_width as nat);
            }
            column = column + 1;
        } else {
            break;
        }
        i = i + 1;
    }
    let mut r: Vec<char> = Vec::new();
    let mut k: usize = i;
    while k < line.len()
        invariant
            i <= k <= line@.len(),
            r@ == line@.subrange(i as int, k as int),
        decreases line.len() - k,
    {
        r.push(line[k]);
        assert(line@.subrange(i as int, k + 1) =~= line@.subrange(i as int, k as int).push(
            line@[k as int],
        ));
        k = k + 1;
    }
    assert(r@ =~= line@.skip(i as int));
    r
}

/// The column after the characters `s` from column `col`: a tab advances to
/// the next tab stop, any other character by one.
pub open spec fn char_columns(s: Seq<char>, col: nat, tw: nat) -> nat
    decreases s.len(),
{
    if s.len() == 0 {
        col
    } else {
        char_columns(s.skip(1), if s[0] == '\t' {
            tab_stop(col, tw)
        } else {
            col + 1
        }, tw)
    }
}

/// Characters never move the column back.
pub proof fn lemma_char_columns_grow(s: Seq<char>, col: nat, tw: nat)
    requires
        tw > 0 || !s.contains('\t'),
    ensures
        char_columns(s, col, tw) >= col,
    decreases s.len(),
{
    if s.len() > 0 {
        if s[0] == '\t' {
            assert(col % tw < tw) by (nonlinear_arith)
                requires
                    tw > 0,
            ;
        }
        assert forall|k: int| 0 <= k < s.skip(1).len() implies s.skip(1)[k] != '\t' || tw > 0 by {
            if tw == 0 {
                assert(s[k + 1] == s.skip(1)[k]);
            }
        }
        lemma_char_columns_grow(
            s.skip(1),
            if s[0] == '\t' {
                tab_stop(col, tw)
            } else {
                col + 1
            },
            tw,
        );
    }
}

/// The visual column of `chars[index]`.
pub fn visual_column_at(chars: &[char], index: usize, tab_width: usize) -> (r: usize)
    requires
        index <= chars@.len(),
        tab_width > 0 || !chars@.take(index as int).contains('\t'),
        char_columns(chars@.take(index as int), 0, tab_width as nat) <= usize::MAX,
    ensures
        r == char_columns(chars@.take(index as int), 0, tab_width as nat),
{
    let ghost p = chars@.take(index as int);
    let ghost goal = char_columns(p, 0, tab_width as nat);
    let mut column: usize = 0;
    let mut i: usize = 0;
    assert(p.skip(0) =~= p);
    proof {
        lemma_char_columns_grow(p, 0, tab_width as nat);
    }
    while i < index
        invariant
            i <= index <= chars@.len(),
            p == chars@.take(index as int),
            goal <= usize::MAX,
            tab_width > 0 || !p.skip(i as int).contains('\t'),
            char_columns(p.skip(i as int), column as nat, tab_width as nat) == goal,
            column <= goal,
        decreases index - i,
    {
        let ch = chars[i];
        let ghost rest = p.skip(i as int);
        assert(rest[0] == ch);
        assert(rest.skip(1) =~= p.skip(i + 1));
        if tab_width == 0 {
            assert(!rest.skip(1).contains('\t')) by {
                if rest.skip(1).contains('\t') {
                    let k = choose|k: int| 0 <= k < rest.skip(1).len() && rest.skip(1)[k] == '\t';
                    assert(rest[k + 1] == '\t');
                }
            }
        }
        if ch == '\t' {
            assert(column % tab_width < tab_width) by (nonlinear_arith)
                requires
                    tab_width > 0,
            ;
            proof {
                lemma_char_columns_grow(rest.skip(1), tab_stop(column as nat, tab_width as nat), tab_width as nat);
            }
            column = column + (tab_width - column % tab_width);
        } else {
            proof {
                lemma_char_columns_grow(rest.skip(1), (column + 1) as nat, tab_width as nat);
            }
            column = column + 1;
        }
        i = i + 1;
    }
    column
}

} // verus!
