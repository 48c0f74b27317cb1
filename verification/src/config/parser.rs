//! The option syntax shared by configuration files and command lines: from
//! text to actions, and from actions to settings.

use super::actions::{Action, OptionSource};
use super::ConfigError;
use super::grammar::{
    LexState, flush_spec, lex_prefix, prepared_source, source_tokens_spec, tokens_actions_spec,
    keyed_spec, options_actions_spec, parse_option_spec, short_value_spec, split_short_spec,
    token_actions_spec, unknown_message,
};
use super::tables::{is_flag_name, is_short_name};
use super::values_parse::{
    access_label, action_result_view, continuation, default_param, digit_choice, header,
    indent_value, indent_width, macro_block, max_code_length, max_continuation, min_conditional,
    short_param, style_value, tab_width, word_choice,
};
use super::options::IndentStyle;
use crate::source::{normalize_line_endings, normalize_line_endings_spec};
use crate::text::{
    chars_of, is_ascii_alphabetic, is_lit, push_all, push_lit, split_once_char, starts_with_lit,
    subrange, trimmed,
};
use vstd::prelude::*;

verus! {

/// The views of a list of texts.
pub open spec fn texts_view(v: Seq<Vec<char>>) -> Seq<Seq<char>> {
    v.map_values(|t: Vec<char>| t@)
}

/// The views of a list of actions.
pub open spec fn actions_view(v: Seq<Action<Vec<char>>>) -> Seq<Action<Seq<char>>> {
    v.map_values(|a: Action<Vec<char>>| a@)
}

/// The view of a list of actions or a message.
pub open spec fn actions_result_view(r: Result<Vec<Action<Vec<char>>>, Vec<char>>) -> Result<
    Seq<Action<Seq<char>>>,
    Seq<char>,
> {
    match r {
        Ok(v) => Ok(actions_view(v@)),
        Err(m) => Err(m@),
    }
}

/// What a short option with a numeric value means (`None` where `option` is
/// no such option).
fn short_value(option: &[char]) -> (r: Option<Result<Action<Vec<char>>, Vec<char>>>)
    ensures
        match r {
            Some(x) => short_value_spec(option@) == Some(action_result_view(x)),
            None => short_value_spec(option@) is None,
        },
{
    if let Some(v) = short_param(option, "s") {
        Some(indent_width(default_param(v, "4").as_slice(), IndentStyle::Spaces))
    } else if let Some(v) = short_param(option, "t") {
        Some(indent_width(default_param(v, "4").as_slice(), IndentStyle::Tabs))
    } else if let Some(v) = short_param(option, "T") {
        Some(indent_width(default_param(v, "4").as_slice(), IndentStyle::ForceTabs))
    } else if let Some(v) = short_param(option, "xT") {
        Some(tab_width(default_param(v, "8").as_slice()))
    } else if let Some(v) = short_param(option, "xt") {
        Some(continuation(default_param(v, "1").as_slice()))
    } else if let Some(v) = short_param(option, "M") {
        Some(max_continuation(default_param(v, "40").as_slice()))
    } else if let Some(v) = short_param(option, "m") {
        Some(min_conditional(default_param(v, "2").as_slice()))
    } else if let Some(v) = short_param(option, "k") {
        Some(digit_choice(chars_of("k").as_slice(), v.as_slice()))
    } else if let Some(v) = short_param(option, "W") {
        Some(digit_choice(chars_of("W").as_slice(), v.as_slice()))
    } else if let Some(v) = short_param(option, "xC") {
        Some(max_code_length(default_param(v, "50").as_slice()))
    } else if let Some(v) = short_param(option, "z") {
        Some(digit_choice(chars_of("z").as_slice(), v.as_slice()))
    } else if let Some(v) = short_param(option, "xP") {
        Some(digit_choice(chars_of("xP").as_slice(), v.as_slice()))
    } else {
        None
    }
}

/// The message for an option that is not known.
fn unknown(source: OptionSource, option: &[char]) -> (r: Vec<char>)
    ensures
        r@ == unknown_message(source, option@),
{
    let mut m: Vec<char> = Vec::new();
    match source {
        OptionSource::Config => push_lit(&mut m, "unknown config key"),
        OptionSource::CommandLine => push_lit(&mut m, "unknown option"),
    }
    push_lit(&mut m, " '");
    push_all(&mut m, option);
    push_lit(&mut m, "'");
    m
}

/// What `key=value` means (both already trimmed).
fn keyed(source: OptionSource, key: &[char], v: &[char]) -> (r: Result<Action<Vec<char>>, Vec<char>>)
    ensures
        action_result_view(r) == keyed_spec(source, key@, v@),
{
    if is_lit(key, "indent") {
        indent_value(v)
    } else if is_lit(key, "style") {
        style_value(v)
    } else if is_lit(key, "indent-continuation") {
        continuation(v)
    } else if is_lit(key, "max-continuation-indent") || is_lit(key, "max-instatement-indent") {
        max_continuation(v)
    } else if is_lit(key, "min-conditional-indent") {
        min_conditional(v)
    } else if is_lit(key, "max-code-length") {
        max_code_length(v)
    } else if is_lit(key, "align-pointer") || is_lit(key, "align-reference") || is_lit(
        key,
        "break-blocks",
    ) || is_lit(key, "pad-method-colon") || is_lit(key, "line-between-members") || is_lit(
        key,
        "lineend",
    ) || is_lit(key, "mode") {
        word_choice(key, v)
    } else if is_lit(key, "access-label") {
        access_label(v)
    } else if is_lit(key, "macro-block") {
        macro_block(v)
    } else if is_lit(key, "control-header") {
        header(v, false)
    } else if is_lit(key, "non-paren-header") {
        header(v, true)
    } else {
        Err(unknown(source, key))
    }
}

/// What one option (without its dashes) means.
pub fn parse_option(source: OptionSource, option: &[char]) -> (r: Result<
    Action<Vec<char>>,
    Vec<char>,
>)
    ensures
        action_result_view(r) == parse_option_spec(source, option@),
{
    let whole = subrange(option, 0, option.len());
    assert(whole@ =~= option@);
    if is_short_name(option) {
        return Ok(Action::Short(whole));
    }
    match short_value(option) {
        Some(r) => r,
        None => match split_once_char(option, '=') {
            Some((key, value)) => {
                let k = trimmed(key.as_slice());
                let v = trimmed(value.as_slice());
                keyed(source, k.as_slice(), v.as_slice())
            },
            None => {
                if is_flag_name(option) {
                    Ok(Action::Flag(whole))
                } else {
                    Err(unknown(source, option))
                }
            },
        },
    }
}

/// Cuts a bundle of short options (`s2pH` of `-s2pH`) into single options: a
/// new option starts at each ASCII letter but the first character and a
/// letter that follows an `x`.
pub fn split_short_options(options: &[char]) -> (r: Vec<Vec<char>>)
    ensures
        texts_view(r@) == split_short_spec(options@),
{
    let mut parts: Vec<Vec<char>> = Vec::new();
    let mut current: Vec<char> = Vec::new();
    let mut i: usize = 0;
    while i < options.len()
        invariant
            i <= options@.len(),
            i == 0 ==> parts@.len() == 0 && current@.len() == 0,
            i > 0 ==> current@.len() > 0,
            i > 0 ==> split_short_spec(options@.take(i as int)) == texts_view(parts@).push(
                current@,
            ),
        decreases options.len() - i,
    {
        let c = options[i];
        let ghost prefix = options@.take(i + 1);
        assert(prefix.drop_last() =~= options@.take(i as int));
        assert(prefix.last() == c);
        assert(prefix[i as int] == c);
        if i > 0 {
            assert(prefix[i - 1] == options@[i - 1]);
        }
        if i > 0 && is_ascii_alphabetic(c) && options[i - 1] != 'x' {
            let ghost before = texts_view(parts@).push(current@);
            parts.push(current);
            current = Vec::new();
            current.push(c);
            assert(texts_view(parts@) =~= before.drop_last().push(before.last()));
            assert(texts_view(parts@).push(current@) =~= before.push(seq![c]));
            assert(split_short_spec(prefix) == texts_view(parts@).push(current@));
        } else {
            let ghost before = texts_view(parts@);
            let ghost old_current = current@;
            current.push(c);
            if i > 0 {
                assert(before.push(old_current).update(before.len() as int, old_current.push(c))
                    =~= before.push(current@));
                assert(split_short_spec(prefix) == texts_view(parts@).push(current@));
            } else {
                assert(options@.take(0) =~= Seq::<char>::empty());
                assert(split_short_spec(options@.take(0)).len() == 0);
                assert(current@ =~= seq![c]);
                assert(before.push(current@) =~= seq![seq![c]]);
                assert(split_short_spec(prefix) == texts_view(parts@).push(current@));
            }
        }
        i = i + 1;
    }
    assert(options@.take(i as int) =~= options@);
    if current.len() > 0 {
        parts.push(current);
    } else {
        assert(options@.len() == 0);
    }
    parts
}

/// Once an option of `opts` is in error, later options do not change the outcome.
proof fn lemma_options_error_stays(source: OptionSource, opts: Seq<Seq<char>>, k: int)
    requires
        0 <= k <= opts.len(),
        options_actions_spec(source, opts.take(k)) is Err,
    ensures
        options_actions_spec(source, opts) == options_actions_spec(source, opts.take(k)),
    decreases opts.len() - k,
{
    if k < opts.len() {
        assert(opts.take(k + 1).drop_last() =~= opts.take(k));
        lemma_options_error_stays(source, opts, k + 1);
    } else {
        assert(opts.take(k) =~= opts);
    }
}

/// The actions of the options `opts`, in order, or the first option's error.
fn options_actions(source: OptionSource, opts: &Vec<Vec<char>>) -> (r: Result<
    Vec<Action<Vec<char>>>,
    Vec<char>,
>)
    ensures
        actions_result_view(r) == options_actions_spec(source, texts_view(opts@)),
{
    let ghost all = texts_view(opts@);
    let mut acts: Vec<Action<Vec<char>>> = Vec::new();
    let mut i: usize = 0;
    assert(all.take(0) =~= Seq::<Seq<char>>::empty());
    assert(actions_view(acts@) =~= Seq::<Action<Seq<char>>>::empty());
    while i < opts.len()
        invariant
            i <= opts@.len(),
            all == texts_view(opts@),
            options_actions_spec(source, all.take(i as int)) == Ok::<
                Seq<Action<Seq<char>>>,
                Seq<char>,
            >(actions_view(acts@)),
        decreases opts.len() - i,
    {
        assert(all.take(i + 1).drop_last() =~= all.take(i as int));
        assert(all.take(i + 1).last() == opts@[i as int]@);
        match parse_option(source, opts[i].as_slice()) {
            Ok(a) => {
                let ghost before = actions_view(acts@);
                acts.push(a);
                assert(actions_view(acts@) =~= before.push(a@));
            },
            Err(m) => {
                proof {
                    lemma_options_error_stays(source, all, i + 1);
                    assert(all.take(all.len() as int) =~= all);
                }
                return Err(m);
            },
        }
        i = i + 1;
    }
    assert(all.take(i as int) =~= all);
    Ok(acts)
}

/// What one token means: nothing where it is blank, the option after `--`,
/// the bundle after `-`, or else the option as written.
pub fn token_actions(source: OptionSource, token: &[char]) -> (r: Result<
    Vec<Action<Vec<char>>>,
    Vec<char>,
>)
    ensures
        actions_result_view(r) == token_actions_spec(source, token@),
{
    proof {
        reveal_strlit("--");
        reveal_strlit("-");
    }
    let t = trimmed(token);
    if t.len() == 0 {
        let acts: Vec<Action<Vec<char>>> = Vec::new();
        assert(actions_view(acts@) =~= Seq::<Action<Seq<char>>>::empty());
        Ok(acts)
    } else if starts_with_lit(t.as_slice(), "--") {
        let mut opts: Vec<Vec<char>> = Vec::new();
        opts.push(subrange(t.as_slice(), 2, t.len()));
        assert(texts_view(opts@) =~= seq![t@.skip(2)]);
        options_actions(source, &opts)
    } else if starts_with_lit(t.as_slice(), "-") {
        if t.len() == 1 {
            Err(unknown(source, t.as_slice()))
        } else {
            let rest = subrange(t.as_slice(), 1, t.len());
            let opts = split_short_options(rest.as_slice());
            options_actions(source, &opts)
        }
    } else {
        let mut opts: Vec<Vec<char>> = Vec::new();
        let whole = subrange(t.as_slice(), 0, t.len());
        assert(whole@ =~= t@);
        opts.push(whole);
        assert(texts_view(opts@) =~= seq![t@]);
        options_actions(source, &opts)
    }
}

/// The views of a list of tokens with their lines.
pub open spec fn tokens_view(v: Seq<(Vec<char>, usize)>) -> Seq<(Seq<char>, nat)> {
    v.map_values(|p: (Vec<char>, usize)| (p.0@, p.1 as nat))
}

/// The tokens once the token being read, trimmed, is added unless it is blank.
pub open spec fn flushed_tokens(toks: Seq<(Seq<char>, nat)>, current: Seq<char>, line: nat) -> Seq<
    (Seq<char>, nat),
> {
    flush_spec(
        LexState { tokens: toks, current, in_quote: false, quote: ' ', stopped: false, line },
    ).tokens
}

/// Normalizing line endings never makes a text longer.
proof fn lemma_normalize_len(s: Seq<char>)
    ensures
        normalize_line_endings_spec(s).len() <= s.len(),
    decreases s.len(),
{
    if s.len() > 0 {
        if s[0] == '\r' && s.len() > 1 && s[1] == '\n' {
            lemma_normalize_len(s.skip(2));
        } else {
            lemma_normalize_len(s.skip(1));
        }
    }
}

/// Adds `current`, trimmed, to `tokens` with its line, unless it is blank.
fn push_token(tokens: &mut Vec<(Vec<char>, usize)>, current: &[char], line: usize)
    ensures
        tokens_view(final(tokens)@) == flushed_tokens(tokens_view(old(tokens)@), current@, line as nat),
{
    let t = trimmed(current);
    if t.len() > 0 {
        let ghost before = tokens_view(tokens@);
        let ghost tv = t@;
        tokens.push((t, line));
        assert(tokens_view(tokens@) =~= before.push((tv, line as nat)));
    }
}

/// The tokens of an option file, each with its line: `#` ends a line's
/// options, quotes keep spaces and commas, and spaces, tabs and commas
/// separate tokens.
pub fn source_tokens(source: &[char]) -> (r: Vec<(Vec<char>, usize)>)
    requires
        source@.len() < usize::MAX,
    ensures
        tokens_view(r@) == source_tokens_spec(source@),
{
    let n = normalize_line_endings(source);
    let p = if n.len() > 0 && n[0] == '\u{feff}' {
        subrange(n.as_slice(), 1, n.len())
    } else {
        n
    };
    assert(p@ =~= prepared_source(source@));
    proof {
        lemma_normalize_len(source@);
    }
    let mut tokens: Vec<(Vec<char>, usize)> = Vec::new();
    let mut current: Vec<char> = Vec::new();
    let mut in_quote = false;
    let mut quote = ' ';
    let mut stopped = false;
    let mut line: usize = 1;
    let mut i: usize = 0;
    assert(p@.take(0) =~= Seq::<char>::empty());
    assert(tokens_view(tokens@) =~= Seq::<(Seq<char>, nat)>::empty());
    while i < p.len()
        invariant
            i <= p@.len() < usize::MAX,
            1 <= line <= i + 1,
            lex_prefix(p@.take(i as int)) == (LexState {
                tokens: tokens_view(tokens@),
                current: current@,
                in_quote,
                quote,
                stopped,
                line: line as nat,
            }),
        decreases p.len() - i,
    {
        let c = p[i];
        assert(p@.take(i + 1).drop_last() =~= p@.take(i as int));
        assert(p@.take(i + 1).last() == c);
        if c == '\n' {
            push_token(&mut tokens, current.as_slice(), line);
            current = Vec::new();
            in_quote = false;
            quote = ' ';
            stopped = false;
            line = line + 1;
        } else if stopped {
        } else if c == '#' {
            stopped = true;
        } else if in_quote {
            if c == quote {
                in_quote = false;
            } else {
                current.push(c);
            }
        } else if c == '\'' || c == '"' {
            in_quote = true;
            quote = c;
        } else if c == ' ' || c == '\t' || c == ',' {
            push_token(&mut tokens, current.as_slice(), line);
            current = Vec::new();
        } else {
            current.push(c);
        }
        i = i + 1;
    }
    assert(p@.take(i as int) =~= p@);
    push_token(&mut tokens, current.as_slice(), line);
    tokens
}

/// Once a token of `toks` is in error, later tokens do not change the outcome.
proof fn lemma_tokens_error_stays(
    source: OptionSource,
    path: Seq<char>,
    toks: Seq<(Seq<char>, nat)>,
    k: int,
)
    requires
        0 <= k <= toks.len(),
        tokens_actions_spec(source, path, toks.take(k)).1 is Some,
    ensures
        tokens_actions_spec(source, path, toks) == tokens_actions_spec(source, path, toks.take(k)),
    decreases toks.len() - k,
{
    if k < toks.len() {
        assert(toks.take(k + 1).drop_last() =~= toks.take(k));
        lemma_tokens_error_stays(source, path, toks, k + 1);
    } else {
        assert(toks.take(k) =~= toks);
    }
}

/// The view of an optional error.
pub open spec fn error_view(e: Option<ConfigError>) -> Option<Seq<char>> {
    match e {
        Some(x) => Some(x@),
        None => None,
    }
}

/// The actions of the tokens `toks`, up to the first token in error, and that
/// token's error, which names `path` and the token's line.
pub fn tokens_actions(source: OptionSource, path: &[char], toks: &Vec<(Vec<char>, usize)>) -> (r: (
    Vec<Action<Vec<char>>>,
    Option<ConfigError>,
))
    ensures
        (actions_view(r.0@), error_view(r.1)) == tokens_actions_spec(source, path@, tokens_view(toks@)),
{
    let ghost all = tokens_view(toks@);
    let mut acts: Vec<Action<Vec<char>>> = Vec::new();
    let mut i: usize = 0;
    assert(all.take(0) =~= Seq::<(Seq<char>, nat)>::empty());
    assert(actions_view(acts@) =~= Seq::<Action<Seq<char>>>::empty());
    while i < toks.len()
        invariant
            i <= toks@.len(),
            all == tokens_view(toks@),
            tokens_actions_spec(source, path@, all.take(i as int)) == (actions_view(acts@), None::<
                Seq<char>,
            >),
        decreases toks.len() - i,
    {
        assert(all.take(i + 1).drop_last() =~= all.take(i as int));
        assert(all.take(i + 1).last() == (toks@[i as int].0@, toks@[i as int].1 as nat));
        match token_actions(source, toks[i].0.as_slice()) {
            Ok(more) => {
                let ghost before = actions_view(acts@);
                let ghost added = actions_view(more@);
                let mut more = more;
                acts.append(&mut more);
                assert(actions_view(acts@) =~= before + added);
            },
            Err(m) => {
                let e = ConfigError::line(path, toks[i].1, m.as_slice());
                proof {
                    lemma_tokens_error_stays(source, path@, all, i + 1);
                    assert(all.take(all.len() as int) =~= all);
                }
                return (acts, Some(e));
            },
        }
        i = i + 1;
    }
    assert(all.take(i as int) =~= all);
    (acts, None)
}

} // verus!
