//! What the program reports after selecting and formatting files: unmatched
//! excludes, the status line of each file, the summary, and the outcome of a
//! dry run.

use super::CliError;
use crate::config::ConfigError;
use super::args::{ConsoleModel, ConsoleOptions, ExcludeErrorMode};
use crate::config::options::strings_view;
use crate::text::{chars_of, decimal, decimal_spec, push_all, push_lit, string_of};
use vstd::prelude::*;

verus! {

/// The excludes that matched nothing (`matched` marks those that did; the
/// pairs are taken as far as both lists go).
pub open spec fn unmatched_spec(excludes: Seq<Seq<char>>, matched: Seq<bool>) -> Seq<Seq<char>>
    decreases excludes.len(),
{
    if excludes.len() == 0 || matched.len() == 0 {
        seq![]
    } else {
        let rest = unmatched_spec(excludes.skip(1), matched.skip(1));
        if matched[0] {
            rest
        } else {
            seq![excludes[0]] + rest
        }
    }
}

/// What unmatched excludes lead to: an error naming the first (exit code 1)
/// where they are errors; the lines `Unmatched exclude P` to show where they
/// are shown and the program is not quiet; nothing where they are ignored.
pub open spec fn unmatched_outcome(c: ConsoleModel, matched: Seq<bool>) -> Result<
    Seq<Seq<char>>,
    Seq<char>,
> {
    let u = unmatched_spec(c.excludes, matched);
    if u.len() == 0 {
        Ok(seq![])
    } else {
        match c.exclude_errors {
            ExcludeErrorMode::Error => Err("unmatched exclude "@ + u[0]),
            ExcludeErrorMode::Show => if c.quiet {
                Ok(seq![])
            } else {
                Ok(u.map_values(|p: Seq<char>| "Unmatched exclude "@ + p))
            },
            ExcludeErrorMode::Ignore => Ok(seq![]),
        }
    }
}

/// The excludes of `console` that matched nothing.
fn unmatched(console: &ConsoleOptions, matched: &Vec<bool>) -> (r: Vec<String>)
    ensures
        strings_view(r@) == unmatched_spec(console@.excludes, matched@),
{
    let ghost ex = console@.excludes;
    let n = if console.excludes.len() < matched.len() {
        console.excludes.len()
    } else {
        matched.len()
    };
    let mut out: Vec<String> = Vec::new();
    let mut i: usize = n;
    assert(strings_view(out@) =~= Seq::<Seq<char>>::empty());
    assert(unmatched_spec(ex.skip(n as int), matched@.skip(n as int)) =~= Seq::<Seq<char>>::empty());
    while i > 0
        invariant
            i <= n,
            n <= ex.len(),
            n <= matched@.len(),
            n == ex.len() || n == matched@.len(),
            ex == console@.excludes,
            ex.len() == console.excludes@.len(),
            strings_view(out@) == unmatched_spec(ex.skip(i as int), matched@.skip(i as int)),
        decreases i,
    {
        i = i - 1;
        assert(ex.skip(i as int).skip(1) =~= ex.skip(i + 1));
        assert(matched@.skip(i as int).skip(1) =~= matched@.skip(i + 1));
        assert(ex.skip(i as int)[0] == ex[i as int]);
        if !matched[i] {
            let ghost before = strings_view(out@);
            let s = console.excludes[i].clone();
            assert(s@ == ex[i as int]);
            out.insert(0, s);
            assert(strings_view(out@) =~= seq![ex[i as int]] + before);
        }
    }
    assert(ex.skip(0) =~= ex);
    assert(matched@.skip(0) =~= matched@);
    out
}

/// What unmatched excludes lead to (see `unmatched_outcome`).
pub fn handle_unmatched_excludes(console: &ConsoleOptions, matched: &Vec<bool>) -> (r: Result<
    Vec<String>,
    CliError,
>)
    ensures
        match r {
            Ok(lines) => unmatched_outcome(console@, matched@) == Ok::<
                Seq<Seq<char>>,
                Seq<char>,
            >(strings_view(lines@)),
            Err(e) => unmatched_outcome(console@, matched@) == Err::<Seq<Seq<char>>, Seq<char>>(
                e.message(),
            ) && e.code() == 1,
        },
{
    let u = unmatched(console, matched);
    let mut lines: Vec<String> = Vec::new();
    assert(strings_view(lines@) =~= Seq::<Seq<char>>::empty());
    if u.len() == 0 {
        return Ok(lines);
    }
    match console.exclude_errors {
        ExcludeErrorMode::Error => {
            let mut m: Vec<char> = Vec::new();
            push_lit(&mut m, "unmatched exclude ");
            let p = chars_of(u[0].as_str());
            push_all(&mut m, p.as_slice());
            Err(CliError::new(string_of(m.as_slice()), 1))
        },
        ExcludeErrorMode::Show => {
            if console.quiet {
                return Ok(lines);
            }
            let ghost uv = strings_view(u@);
            let ghost goal = uv.map_values(|p: Seq<char>| "Unmatched exclude "@ + p);
            let mut i: usize = 0;
            while i < u.len()
                invariant
                    i <= u@.len(),
                    uv == strings_view(u@),
                    goal == uv.map_values(|p: Seq<char>| "Unmatched exclude "@ + p),
                    strings_view(lines@) == goal.take(i as int),
                decreases u.len() - i,
            {
                let mut m: Vec<char> = Vec::new();
                push_lit(&mut m, "Unmatched exclude ");
                let p = chars_of(u[i].as_str());
                push_all(&mut m, p.as_slice());
                let ghost before = strings_view(lines@);
                lines.push(string_of(m.as_slice()));
                assert(strings_view(lines@) =~= before.push(goal[i as int]));
                assert(goal.take(i + 1) =~= goal.take(i as int).push(goal[i as int]));
                i = i + 1;
            }
            assert(goal.take(i as int) =~= goal);
            Ok(lines)
        },
        ExcludeErrorMode::Ignore => Ok(lines),
    }
}

/// The status line of a file: none where the program is quiet, or shows
/// formatted files only and this one is unchanged.
pub open spec fn status_line_spec(display: Seq<char>, changed: bool, c: ConsoleModel) -> Option<
    Seq<char>,
> {
    if c.quiet || (c.formatted_only && !changed) {
        None
    } else {
        Some((if changed {
            "Formatted"@
        } else {
            "Unchanged"@
        }) + "  "@ + display)
    }
}

/// The status line of a file (see `status_line_spec`).
pub fn file_status_line(display: &str, changed: bool, console: &ConsoleOptions) -> (r: Option<
    String,
>)
    ensures
        match r {
            Some(s) => status_line_spec(display@, changed, console@) == Some(s@),
            None => status_line_spec(display@, changed, console@) is None,
        },
{
    if console.quiet || (console.formatted_only && !changed) {
        return None;
    }
    let mut m: Vec<char> = Vec::new();
    if changed {
        push_lit(&mut m, "Formatted");
    } else {
        push_lit(&mut m, "Unchanged");
    }
    push_lit(&mut m, "  ");
    push_lit(&mut m, display);
    Some(string_of(m.as_slice()))
}

/// Whether the program writes its banner and summary: verbose and not quiet.
pub fn shows_summary(console: &ConsoleOptions) -> (r: bool)
    ensures
        r == (console@.verbose && !console@.quiet),
{
    console.verbose && !console.quiet
}

/// The summary line: ` F formatted   U unchanged`.
pub fn summary_line(formatted: usize, unchanged: usize) -> (r: String)
    ensures
        r@ == " "@ + decimal_spec(formatted as nat) + " formatted   "@ + decimal_spec(
            unchanged as nat,
        ) + " unchanged"@,
{
    let mut m: Vec<char> = Vec::new();
    push_lit(&mut m, " ");
    let a = decimal(formatted);
    push_all(&mut m, a.as_slice());
    push_lit(&mut m, " formatted   ");
    let b = decimal(unchanged);
    push_all(&mut m, b.as_slice());
    push_lit(&mut m, " unchanged");
    string_of(m.as_slice())
}

/// The outcome of a run: a dry run asked to fail on changes fails (exit code
/// 1) where some file would change.
pub fn dry_run_outcome(console: &ConsoleOptions, formatted: usize) -> (r: Result<(), CliError>)
    ensures
        match r {
            Ok(_) => !(console@.dry_run && console@.error_on_changes && formatted > 0),
            Err(e) => console@.dry_run && console@.error_on_changes && formatted > 0
                && e.message() == "dry-run found files that would change"@ && e.code() == 1,
        },
{
    if console.dry_run && console.error_on_changes && formatted > 0 {
        return Err(
            CliError::new(string_of(chars_of("dry-run found files that would change").as_slice()), 1),
        );
    }
    Ok(())
}

/// An error met while a format request runs, reported where the request's
/// console options ask (`-X`, `--errors-to-stdout`); message and exit code
/// stay.
pub fn request_error(error: CliError, console: &ConsoleOptions) -> (r: CliError)
    ensures
        r.message() == error.message(),
        r.code() == error.code(),
        r.to_stdout() == console.errors_to_stdout,
{
    error.with_stdout(console.errors_to_stdout)
}

/// An error in the option files of a format request: `config error: ` and
/// the message, exit code 2, reported where the console options ask.
pub fn config_failure(error: &ConfigError, console: &ConsoleOptions) -> (r: CliError)
    ensures
        r.message() == "config error: "@ + error@,
        r.code() == 2,
        r.to_stdout() == console.errors_to_stdout,
{
    request_error(CliError::config(error), console)
}

/// An error in the command-line formatter options of a format request:
/// `option error: `, the message and a pointer to `--help`, exit code 2,
/// reported where the console options ask.
pub fn option_failure(error: &ConfigError, console: &ConsoleOptions) -> (r: CliError)
    ensures
        r.message() == "option error: "@ + error@ + ". Try 'cstyle --help'."@,
        r.code() == 2,
        r.to_stdout() == console.errors_to_stdout,
{
    request_error(CliError::option(error), console)
}

/// The status line of a file says whether the run changed it: it starts
/// with `Formatted` for a changed file and `Unchanged` for one left as it
/// was, and ends with the file as displayed; it is left out exactly when the
/// run is quiet, or lists formatted files only and the file is unchanged.
pub proof fn lemma_status_line_follows_the_change(display: Seq<char>, changed: bool, c: ConsoleModel)
    ensures
        (status_line_spec(display, changed, c) is None) == (c.quiet || (c.formatted_only
            && !changed)),
        status_line_spec(display, changed, c) matches Some(l) ==> l.take(9) == (if changed {
            "Formatted"@
        } else {
            "Unchanged"@
        }) && l.skip(l.len() - display.len()) == display,
{
    reveal_strlit("Formatted");
    reveal_strlit("Unchanged");
    reveal_strlit("  ");
    if let Some(l) = status_line_spec(display, changed, c) {
        let w = if changed {
            "Formatted"@
        } else {
            "Unchanged"@
        };
        assert(w.len() == 9);
        assert(l == w + "  "@ + display);
        assert(l.take(9) =~= w);
        assert(l.skip(l.len() - display.len()) =~= display);
    }
}

/// The unmatched excludes are exactly those whose flag says they matched
/// nothing: each exclude with a false flag is listed, and each listed one is
/// an exclude with a false flag.
pub proof fn lemma_unmatched_excludes_are_the_unflagged(excludes: Seq<Seq<char>>, matched: Seq<bool>)
    ensures
        forall|i: int|
            0 <= i < excludes.len() && i < matched.len() && !matched[i] ==> unmatched_spec(
                excludes,
                matched,
            ).contains(#[trigger] excludes[i]),
        forall|k: int|
            0 <= k < unmatched_spec(excludes, matched).len() ==> exists|i: int|
                0 <= i < excludes.len() && i < matched.len() && !matched[i] && excludes[i]
                    == #[trigger] unmatched_spec(excludes, matched)[k],
    decreases excludes.len(),
{
    if excludes.len() > 0 && matched.len() > 0 {
        let ex = excludes.skip(1);
        let ms = matched.skip(1);
        lemma_unmatched_excludes_are_the_unflagged(ex, ms);
        let rest = unmatched_spec(ex, ms);
        let all = unmatched_spec(excludes, matched);
        assert forall|i: int|
            0 <= i < excludes.len() && i < matched.len() && !matched[i] implies all.contains(
                #[trigger] excludes[i],
            ) by {
            if i == 0 {
                assert(all[0] == excludes[0]);
            } else {
                assert(ex[i - 1] == excludes[i]);
                assert(ms[i - 1] == matched[i]);
                let j = choose|j: int| 0 <= j < rest.len() && rest[j] == ex[i - 1];
                if matched[0] {
                    assert(all[j] == excludes[i]);
                } else {
                    assert(all[j + 1] == excludes[i]);
                }
            }
        }
        assert forall|k: int| 0 <= k < all.len() implies exists|i: int|
            0 <= i < excludes.len() && i < matched.len() && !matched[i] && excludes[i]
                == #[trigger] all[k] by {
            if !matched[0] && k == 0 {
                assert(0 < excludes.len() && 0 < matched.len() && !matched[0] && excludes[0] == all[0]);
            } else {
                let kk = if matched[0] { k } else { k - 1 };
                assert(all[k] == rest[kk]);
                let i = choose|i: int|
                    0 <= i < ex.len() && i < ms.len() && !ms[i] && ex[i] == #[trigger] rest[kk];
                assert(excludes[i + 1] == ex[i] && matched[i + 1] == ms[i]);
            }
        }
    }
}

} // verus!
