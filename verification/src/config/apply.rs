//! Applying parsed options: the actions on the settings, the word lists kept
//! beside them, and the entry points for option files and command lines.

use super::ConfigError;
use super::actions::{
    Action, OptionSource, add_pair_spec, add_word_spec, apply_action_spec, lists_action_spec,
    lists_after, options_after, with_style_kept_spec,
};
use super::grammar::{source_tokens_spec, tokens_actions_spec};
use super::options::{
    FormatOptions, LineBetweenMembers, Lists, default_lists, default_scalars, lists, pairs_view,
    scalars, strings_view,
};
use super::parser::{actions_view, error_view, source_tokens, tokens_actions, tokens_view};
use super::setters::{
    take_options, with_force_tab_width, with_indent_style_width, with_style, with_style_preset,
    without_active_style,
};
use super::tables::{flag_table_0, short_table_0};
use super::values::{clone_pairs, clone_strings};
use crate::text::{chars_of, seq_eq, string_of};
use vstd::prelude::*;

verus! {

/// The word lists of a `FormatOptions` value, held apart while options are applied.
pub struct WordLists {
    pub access_labels: Vec<String>,
    pub macro_blocks: Vec<(String, String)>,
    pub control_headers: Vec<String>,
    pub non_paren_headers: Vec<String>,
}

impl View for WordLists {
    type V = Lists;

    open spec fn view(&self) -> Lists {
        Lists {
            access_labels: strings_view(self.access_labels@),
            macro_blocks: pairs_view(self.macro_blocks@),
            control_headers: strings_view(self.control_headers@),
            non_paren_headers: strings_view(self.non_paren_headers@),
        }
    }
}

/// `core` with the given word lists.
pub open spec fn with_word_lists(
    core: FormatOptions,
    a: Vec<String>,
    m: Vec<(String, String)>,
    c: Vec<String>,
    n: Vec<String>,
) -> FormatOptions {
    FormatOptions {
        access_labels: a,
        macro_blocks: m,
        control_headers: c,
        non_paren_headers: n,
        ..core
    }
}

/// `x` holds every setting of `core` but (maybe) the word lists.
pub open spec fn same_settings(x: FormatOptions, core: FormatOptions) -> bool {
    exists|a: Vec<String>, m: Vec<(String, String)>, c: Vec<String>, n: Vec<String>|
        x == #[trigger] with_word_lists(core, a, m, c, n)
}

/// `after` is `before` with the actions `acts` applied, in order.
pub open spec fn applied(
    acts: Seq<Action<Seq<char>>>,
    before: FormatOptions,
    after: FormatOptions,
) -> bool {
    &&& same_settings(after, options_after(acts, before))
    &&& lists(after) == lists_after(acts, lists(before))
}

/// Whether `d` holds the default settings.
pub open spec fn is_default(d: FormatOptions) -> bool {
    scalars(d) == default_scalars() && lists(d) == default_lists()
}

/// Whether `s` spells `w`.
fn string_is(s: &String, w: &[char]) -> (r: bool)
    ensures
        r == (s@ == w@),
{
    let c = chars_of(s.as_str());
    seq_eq(c.as_slice(), w)
}

/// `words` with `w` added at the end unless it is there already.
fn with_word(words: Vec<String>, w: &[char]) -> (r: Vec<String>)
    ensures
        strings_view(r@) == add_word_spec(strings_view(words@), w@),
{
    let ghost view = strings_view(words@);
    let mut i: usize = 0;
    while i < words.len()
        invariant
            i <= words@.len(),
            view == strings_view(words@),
            forall|j: int| 0 <= j < i ==> view[j] != w@,
        decreases words.len() - i,
    {
        if string_is(&words[i], w) {
            assert(view[i as int] == w@);
            assert(view.contains(w@));
            return words;
        }
        i = i + 1;
    }
    assert(!view.contains(w@));
    let mut words = words;
    words.push(string_of(w));
    assert(strings_view(words@) =~= view.push(w@));
    words
}

/// `pairs` with `(b, e)` added at the end unless it is there already.
fn with_pair(pairs: Vec<(String, String)>, b: &[char], e: &[char]) -> (r: Vec<(String, String)>)
    ensures
        pairs_view(r@) == add_pair_spec(pairs_view(pairs@), (b@, e@)),
{
    let ghost view = pairs_view(pairs@);
    let mut i: usize = 0;
    while i < pairs.len()
        invariant
            i <= pairs@.len(),
            view == pairs_view(pairs@),
            forall|j: int| 0 <= j < i ==> view[j] != (b@, e@),
        decreases pairs.len() - i,
    {
        if string_is(&pairs[i].0, b) && string_is(&pairs[i].1, e) {
            assert(view[i as int] == (b@, e@));
            assert(view.contains((b@, e@)));
            return pairs;
        }
        i = i + 1;
    }
    assert(!view.contains((b@, e@)));
    let mut pairs = pairs;
    pairs.push((string_of(b), string_of(e)));
    assert(pairs_view(pairs@) =~= view.push((b@, e@)));
    pairs
}

/// The word lists after the action `a`.
fn lists_action(a: &Action<Vec<char>>, l: WordLists) -> (r: WordLists)
    ensures
        r@ == lists_action_spec(a@, l@),
{
    match a {
        Action::AccessLabel(w) => WordLists {
            access_labels: with_word(l.access_labels, w.as_slice()),
            ..l
        },
        Action::ControlHeader(w) => WordLists {
            control_headers: with_word(l.control_headers, w.as_slice()),
            ..l
        },
        Action::NonParenHeader(w) => {
            let c = with_word(l.control_headers, w.as_slice());
            let n = with_word(l.non_paren_headers, w.as_slice());
            WordLists { control_headers: c, non_paren_headers: n, ..l }
        },
        Action::MacroBlock(b, e) => WordLists {
            macro_blocks: with_pair(l.macro_blocks, b.as_slice(), e.as_slice()),
            ..l
        },
        _ => l,
    }
}

/// What the action `a` does to the scalar settings of `o`.
fn apply_action(a: &Action<Vec<char>>, o: FormatOptions) -> (r: FormatOptions)
    ensures
        r == apply_action_spec(a@, o),
{
    match a {
        Action::Flag(n) => flag_table_0(n.as_slice(), o),
        Action::Short(n) => short_table_0(n.as_slice(), o),
        Action::Style(p) => with_style(*p, o),
        Action::Indent(s, w) => with_indent_style_width(*s, *w, o),
        Action::ForceTabWidth(w) => with_force_tab_width(*w, o),
        Action::ContinuationIndent(v) => FormatOptions { continuation_indent: *v, ..o },
        Action::MaxContinuationIndent(v) => FormatOptions { max_continuation_indent: *v, ..o },
        Action::MinConditionalIndent(v) => FormatOptions { min_conditional_indent: *v, ..o },
        Action::PointerAlign(v) => FormatOptions { pointer_align: *v, ..o },
        Action::ReferenceAlign(v) => FormatOptions { reference_align: *v, ..o },
        Action::MaxCodeLength(v) => FormatOptions { max_code_length: Some(*v), ..o },
        Action::BreakAllBlocks => FormatOptions {
            break_blocks: true,
            break_closing_header_blocks: true,
            ..o
        },
        Action::MethodColonPad(v) => FormatOptions { pad_method_colon: *v, ..o },
        Action::LineBetweenAllMembers => FormatOptions {
            line_between_members: LineBetweenMembers::All,
            ..o
        },
        Action::LineEnding(v) => FormatOptions { line_ending: *v, ..o },
        Action::Mode(v) => FormatOptions { mode: *v, ..o },
        _ => o,
    }
}

/// The action `a` applied beneath the active preset, which is applied again
/// unless the action set a preset itself.
fn with_style_kept(a: &Action<Vec<char>>, o: FormatOptions) -> (r: FormatOptions)
    ensures
        r == with_style_kept_spec(a@, o),
{
    let (previous, base) = without_active_style(o);
    let r = apply_action(a, base);
    match previous {
        Some(style) => {
            if r.style.is_none() {
                with_style_preset(style, r)
            } else {
                r
            }
        },
        None => r,
    }
}

/// The settings and word lists after the actions `acts`, in order.
pub fn apply_actions(acts: &Vec<Action<Vec<char>>>, o: FormatOptions, l: WordLists) -> (r: (
    FormatOptions,
    WordLists,
))
    ensures
        r.0 == options_after(actions_view(acts@), o),
        r.1@ == lists_after(actions_view(acts@), l@),
{
    let ghost all = actions_view(acts@);
    let mut cur = o;
    let mut words = l;
    let mut i: usize = 0;
    assert(all.take(0) =~= Seq::<Action<Seq<char>>>::empty());
    while i < acts.len()
        invariant
            i <= acts@.len(),
            all == actions_view(acts@),
            cur == options_after(all.take(i as int), o),
            words@ == lists_after(all.take(i as int), l@),
        decreases acts.len() - i,
    {
        assert(all.take(i + 1).drop_last() =~= all.take(i as int));
        assert(all.take(i + 1).last() == acts@[i as int]@);
        cur = with_style_kept(&acts[i], cur);
        words = lists_action(&acts[i], words);
        i = i + 1;
    }
    assert(all.take(i as int) =~= all);
    (cur, words)
}

/// Copies of the word lists of `o`.
fn lists_of(o: &FormatOptions) -> (r: WordLists)
    ensures
        r@ == lists(*o),
{
    WordLists {
        access_labels: clone_strings(&o.access_labels),
        macro_blocks: clone_pairs(&o.macro_blocks),
        control_headers: clone_strings(&o.control_headers),
        non_paren_headers: clone_strings(&o.non_paren_headers),
    }
}

/// `o` with the word lists `l`.
fn with_lists(l: WordLists, o: FormatOptions) -> (r: FormatOptions)
    ensures
        same_settings(r, o),
        lists(r) == l@,
{
    let ghost a = l.access_labels;
    let ghost m = l.macro_blocks;
    let ghost c = l.control_headers;
    let ghost n = l.non_paren_headers;
    let r = FormatOptions {
        access_labels: l.access_labels,
        macro_blocks: l.macro_blocks,
        control_headers: l.control_headers,
        non_paren_headers: l.non_paren_headers,
        ..o
    };
    assert(r == with_word_lists(o, a, m, c, n));
    r
}

/// The actions of an option file, up to the first token in error, and that error.
pub open spec fn source_actions(path: Seq<char>, source: Seq<char>) -> (
    Seq<Action<Seq<char>>>,
    Option<Seq<char>>,
) {
    tokens_actions_spec(OptionSource::Config, path, source_tokens_spec(source))
}

/// The tokens of a command line: one per argument, all on line 1.
pub open spec fn command_line_tokens(args: Seq<String>) -> Seq<(Seq<char>, nat)> {
    args.map_values(|a: String| (a@, 1nat))
}

/// The actions of a command line, up to the first argument in error, and that error.
pub open spec fn command_line_actions(args: Seq<String>) -> (
    Seq<Action<Seq<char>>>,
    Option<Seq<char>>,
) {
    tokens_actions_spec(OptionSource::CommandLine, "<command-line>"@, command_line_tokens(args))
}

/// Applies the options of the option file `source`, read from `path`, in
/// order. At the first token in error it stops: the tokens before it stay
/// applied, and the error names the file and the line.
pub fn apply_source(path: &str, source: &str, options: &mut FormatOptions) -> (r: Result<
    (),
    ConfigError,
>)
    requires
        source@.len() < usize::MAX,
    ensures
        applied(source_actions(path@, source@).0, *old(options), *final(options)),
        match r {
            Ok(_) => source_actions(path@, source@).1 is None,
            Err(e) => source_actions(path@, source@).1 == Some(e@),
        },
{
    let chars = chars_of(source);
    let toks = source_tokens(chars.as_slice());
    let path_chars = chars_of(path);
    let (acts, err) = tokens_actions(OptionSource::Config, path_chars.as_slice(), &toks);
    let o = take_options(options);
    let l = lists_of(&o);
    let (r, l2) = apply_actions(&acts, o, l);
    *options = with_lists(l2, r);
    match err {
        Some(e) => Err(e),
        None => Ok(()),
    }
}

/// Applies the option file `source`, read from `path`, whole or not at all:
/// where a token is in error, `options` stays as it was and the error names
/// the file and the line; otherwise every token is applied in order.
pub fn apply_whole_source(path: &str, source: &str, options: &mut FormatOptions) -> (r: Result<
    (),
    ConfigError,
>)
    requires
        source@.len() < usize::MAX,
    ensures
        match r {
            Ok(_) => source_actions(path@, source@).1 is None && applied(
                source_actions(path@, source@).0,
                *old(options),
                *final(options),
            ),
            Err(e) => source_actions(path@, source@).1 == Some(e@) && *final(options) == *old(
                options,
            ),
        },
{
    let chars = chars_of(source);
    let toks = source_tokens(chars.as_slice());
    let path_chars = chars_of(path);
    let (acts, err) = tokens_actions(OptionSource::Config, path_chars.as_slice(), &toks);
    match err {
        Some(e) => Err(e),
        None => {
            let o = take_options(options);
            let l = lists_of(&o);
            let (r, l2) = apply_actions(&acts, o, l);
            *options = with_lists(l2, r);
            Ok(())
        },
    }
}

/// The settings that the option file `source`, read from `path`, gives on
/// top of the defaults.
pub fn parse_source(path: &str, source: &str) -> (r: Result<FormatOptions, ConfigError>)
    requires
        source@.len() < usize::MAX,
    ensures
        match r {
            Ok(x) => source_actions(path@, source@).1 is None && exists|d: FormatOptions|
                #[trigger] is_default(d) && applied(source_actions(path@, source@).0, d, x),
            Err(e) => source_actions(path@, source@).1 == Some(e@),
        },
{
    let mut options = FormatOptions::default();
    let ghost d = options;
    let r = apply_source(path, source, &mut options);
    match r {
        Ok(()) => {
            assert(is_default(d));
            Ok(options)
        },
        Err(e) => Err(e),
    }
}

/// Applies the command-line arguments `args` as options, in order. The batch
/// is applied whole or not at all: where an argument is in error, `options`
/// stays as it was.
pub fn apply_command_line_args(options: &mut FormatOptions, args: &[String]) -> (r: Result<
    (),
    ConfigError,
>)
    ensures
        match r {
            Ok(_) => command_line_actions(args@).1 is None && applied(
                command_line_actions(args@).0,
                *old(options),
                *final(options),
            ),
            Err(e) => command_line_actions(args@).1 == Some(e@) && *final(options) == *old(
                options,
            ),
        },
{
    let mut toks: Vec<(Vec<char>, usize)> = Vec::new();
    let mut i: usize = 0;
    while i < args.len()
        invariant
            i <= args@.len(),
            tokens_view(toks@) == command_line_tokens(args@.take(i as int)),
        decreases args.len() - i,
    {
        let ghost before = tokens_view(toks@);
        toks.push((chars_of(args[i].as_str()), 1));
        assert(args@.take(i + 1) =~= args@.take(i as int).push(args@[i as int]));
        assert(tokens_view(toks@) =~= before.push((args@[i as int]@, 1nat)));
        assert(command_line_tokens(args@.take(i + 1)) =~= command_line_tokens(
            args@.take(i as int),
        ).push((args@[i as int]@, 1nat)));
        i = i + 1;
    }
    assert(args@.take(i as int) =~= args@);
    let path = chars_of("<command-line>");
    let (acts, err) = tokens_actions(OptionSource::CommandLine, path.as_slice(), &toks);
    match err {
        Some(e) => Err(e),
        None => {
            let o = take_options(options);
            let l = lists_of(&o);
            let (r, l2) = apply_actions(&acts, o, l);
            *options = with_lists(l2, r);
            Ok(())
        },
    }
}

} // verus!
