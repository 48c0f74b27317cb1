//! The option syntax, stated as spec functions: what a single option means,
//! how a command-line token or a bundle of short options breaks into options,
//! and how an option file breaks into tokens.

use super::actions::{Action, OptionSource, is_flag_name_spec, is_short_name_spec};
use super::line_message;
use super::options::{
    IndentStyle, LineEnding, MinConditionalIndent, Mode, ObjCColonPad, PointerAlign,
    ReferenceAlign, StylePreset,
};
use crate::source::{is_identifier_spec, normalize_line_endings_spec};
use crate::text::{
    decimal_spec, is_ascii_alpha_spec, is_ascii_digit_spec, split_once_spec, starts_with_spec,
    trim_spec,
};
use vstd::prelude::*;

verus! {

/// The value of a short option `name` written as `option`: what follows the
/// name, where that is empty or starts with a digit.
pub open spec fn short_param_spec(option: Seq<char>, name: Seq<char>) -> Option<Seq<char>> {
    if starts_with_spec(option, name) {
        let v = option.skip(name.len() as int);
        if v.len() == 0 || is_ascii_digit_spec(v[0]) {
            Some(v)
        } else {
            None
        }
    } else {
        None
    }
}

/// `value`, or `default` where `value` is empty.
pub open spec fn default_param_spec(value: Seq<char>, default: Seq<char>) -> Seq<char> {
    if value.len() == 0 {
        default
    } else {
        value
    }
}

/// Whether every character of `s` is an ASCII digit.
pub open spec fn all_digits(s: Seq<char>) -> bool {
    forall|i: int| 0 <= i < s.len() ==> is_ascii_digit_spec(#[trigger] s[i])
}

/// The number that the ASCII digits `s` spell in decimal.
pub open spec fn digits_value(s: Seq<char>) -> nat
    decreases s.len(),
{
    if s.len() == 0 {
        0
    } else {
        digits_value(s.drop_last()) * 10 + ((s.last() as nat) - ('0' as nat)) as nat
    }
}

/// The digits of an unsigned number as `usize::from_str` reads it: an optional `+`,
/// then the digits.
pub open spec fn unsigned_digits(raw: Seq<char>) -> Seq<char> {
    if raw.len() > 0 && raw[0] == '+' {
        raw.skip(1)
    } else {
        raw
    }
}

/// `raw` read as a `usize` (`None` where it is no such number or too large).
pub open spec fn parse_usize_spec(raw: Seq<char>) -> Option<usize> {
    let d = unsigned_digits(raw);
    if d.len() > 0 && all_digits(d) && digits_value(d) <= usize::MAX {
        Some(digits_value(d) as usize)
    } else {
        None
    }
}

/// The message for a value that is no number.
pub open spec fn invalid_number_message(label: Seq<char>, raw: Seq<char>) -> Seq<char> {
    "invalid "@ + label + " '"@ + raw + "'"@
}

/// The message for a number outside its range.
pub open spec fn range_message(label: Seq<char>, min: usize, max: usize) -> Seq<char> {
    label + " must be between "@ + decimal_spec(min as nat) + " and "@ + decimal_spec(max as nat)
}

/// `raw` read as a number between `min` and `max`.
pub open spec fn bounded_spec(raw: Seq<char>, label: Seq<char>, min: usize, max: usize) -> Result<
    usize,
    Seq<char>,
> {
    match parse_usize_spec(raw) {
        None => Err(invalid_number_message(label, raw)),
        Some(v) => if min <= v && v <= max {
            Ok(v)
        } else {
            Err(range_message(label, min, max))
        },
    }
}

/// An indentation of style `style` whose width is written `raw`.
pub open spec fn indent_width_spec(raw: Seq<char>, style: IndentStyle) -> Result<
    Action<Seq<char>>,
    Seq<char>,
> {
    match bounded_spec(raw, "indent width"@, 2, 20) {
        Ok(w) => Ok(Action::Indent(style, w)),
        Err(m) => Err(m),
    }
}

/// Forced tab indentation whose tab width is written `raw`.
pub open spec fn tab_width_spec(raw: Seq<char>) -> Result<Action<Seq<char>>, Seq<char>> {
    match bounded_spec(raw, "tab width"@, 2, 20) {
        Ok(w) => Ok(Action::ForceTabWidth(w)),
        Err(m) => Err(m),
    }
}

/// The continuation indent written `raw`.
pub open spec fn continuation_spec(raw: Seq<char>) -> Result<Action<Seq<char>>, Seq<char>> {
    match bounded_spec(raw, "continuation indent"@, 0, 4) {
        Ok(v) => Ok(Action::ContinuationIndent(v)),
        Err(m) => Err(m),
    }
}

/// The maximal continuation indent written `raw`.
pub open spec fn max_continuation_spec(raw: Seq<char>) -> Result<Action<Seq<char>>, Seq<char>> {
    match bounded_spec(raw, "max continuation indent"@, 40, 120) {
        Ok(v) => Ok(Action::MaxContinuationIndent(v)),
        Err(m) => Err(m),
    }
}

/// The maximal code length written `raw`.
pub open spec fn max_code_length_spec(raw: Seq<char>) -> Result<Action<Seq<char>>, Seq<char>> {
    match bounded_spec(raw, "max code length"@, 50, 200) {
        Ok(v) => Ok(Action::MaxCodeLength(v)),
        Err(m) => Err(m),
    }
}

/// The minimal conditional indent written `v`.
pub open spec fn min_conditional_spec(v: Seq<char>) -> Result<Action<Seq<char>>, Seq<char>> {
    if v == "0"@ {
        Ok(Action::MinConditionalIndent(MinConditionalIndent::Zero))
    } else if v == "1"@ {
        Ok(Action::MinConditionalIndent(MinConditionalIndent::One))
    } else if v == "2"@ {
        Ok(Action::MinConditionalIndent(MinConditionalIndent::Two))
    } else if v == "3"@ {
        Ok(Action::MinConditionalIndent(MinConditionalIndent::OneHalf))
    } else {
        Err("min conditional indent must be 0, 1, 2, or 3"@)
    }
}

/// The value of the short options `k`, `W`, `z` and `xP`, which take one digit.
pub open spec fn digit_choice_spec(name: Seq<char>, v: Seq<char>) -> Result<
    Action<Seq<char>>,
    Seq<char>,
> {
    if name == "k"@ {
        if v == "1"@ {
            Ok(Action::PointerAlign(PointerAlign::Type))
        } else if v == "2"@ {
            Ok(Action::PointerAlign(PointerAlign::Middle))
        } else if v == "3"@ {
            Ok(Action::PointerAlign(PointerAlign::Name))
        } else {
            Err("align-pointer must be 1, 2, or 3"@)
        }
    } else if name == "W"@ {
        if v == "0"@ {
            Ok(Action::ReferenceAlign(ReferenceAlign::Off))
        } else if v == "1"@ {
            Ok(Action::ReferenceAlign(ReferenceAlign::Type))
        } else if v == "2"@ {
            Ok(Action::ReferenceAlign(ReferenceAlign::Middle))
        } else if v == "3"@ {
            Ok(Action::ReferenceAlign(ReferenceAlign::Name))
        } else {
            Err("align-reference must be 0, 1, 2, or 3"@)
        }
    } else if name == "z"@ {
        if v == "1"@ {
            Ok(Action::LineEnding(LineEnding::Crlf))
        } else if v == "2"@ {
            Ok(Action::LineEnding(LineEnding::Lf))
        } else if v == "3"@ {
            Ok(Action::LineEnding(LineEnding::Cr))
        } else {
            Err("lineend must be 1, 2, or 3"@)
        }
    } else if v == "0"@ {
        Ok(Action::MethodColonPad(ObjCColonPad::Off))
    } else if v == "1"@ {
        Ok(Action::MethodColonPad(ObjCColonPad::All))
    } else if v == "2"@ {
        Ok(Action::MethodColonPad(ObjCColonPad::After))
    } else if v == "3"@ {
        Ok(Action::MethodColonPad(ObjCColonPad::Before))
    } else {
        Err("pad-method-colon must be 0, 1, 2, or 3"@)
    }
}

/// What a short option with a numeric value means, tried in the order
/// `s`, `t`, `T`, `xT`, `xt`, `M`, `m`, `k`, `W`, `xC`, `z`, `xP`
/// (`None` where `option` is none of these).
pub open spec fn short_value_spec(option: Seq<char>) -> Option<Result<Action<Seq<char>>, Seq<char>>> {
    if let Some(v) = short_param_spec(option, "s"@) {
        Some(indent_width_spec(default_param_spec(v, "4"@), IndentStyle::Spaces))
    } else if let Some(v) = short_param_spec(option, "t"@) {
        Some(indent_width_spec(default_param_spec(v, "4"@), IndentStyle::Tabs))
    } else if let Some(v) = short_param_spec(option, "T"@) {
        Some(indent_width_spec(default_param_spec(v, "4"@), IndentStyle::ForceTabs))
    } else if let Some(v) = short_param_spec(option, "xT"@) {
        Some(tab_width_spec(default_param_spec(v, "8"@)))
    } else if let Some(v) = short_param_spec(option, "xt"@) {
        Some(continuation_spec(default_param_spec(v, "1"@)))
    } else if let Some(v) = short_param_spec(option, "M"@) {
        Some(max_continuation_spec(default_param_spec(v, "40"@)))
    } else if let Some(v) = short_param_spec(option, "m"@) {
        Some(min_conditional_spec(default_param_spec(v, "2"@)))
    } else if let Some(v) = short_param_spec(option, "k"@) {
        Some(digit_choice_spec("k"@, v))
    } else if let Some(v) = short_param_spec(option, "W"@) {
        Some(digit_choice_spec("W"@, v))
    } else if let Some(v) = short_param_spec(option, "xC"@) {
        Some(max_code_length_spec(default_param_spec(v, "50"@)))
    } else if let Some(v) = short_param_spec(option, "z"@) {
        Some(digit_choice_spec("z"@, v))
    } else if let Some(v) = short_param_spec(option, "xP"@) {
        Some(digit_choice_spec("xP"@, v))
    } else {
        None
    }
}

/// The preset that a `style=` value names.
pub open spec fn style_name_spec(v: Seq<char>) -> Option<StylePreset> {
    if v == "none"@ {
        Some(StylePreset::Off)
    } else if v == "allman"@ || v == "bsd"@ || v == "break"@ || v == "ansi"@ {
        Some(StylePreset::Allman)
    } else if v == "java"@ || v == "attach"@ {
        Some(StylePreset::Java)
    } else if v == "kr"@ || v == "k&r"@ || v == "k/r"@ {
        Some(StylePreset::Kr)
    } else if v == "linux"@ || v == "knf"@ {
        Some(StylePreset::Linux)
    } else if v == "mozilla"@ {
        Some(StylePreset::Mozilla)
    } else if v == "webkit"@ {
        Some(StylePreset::WebKit)
    } else if v == "stroustrup"@ {
        Some(StylePreset::Stroustrup)
    } else if v == "1tbs"@ || v == "otbs"@ {
        Some(StylePreset::OneTrueBrace)
    } else if v == "whitesmith"@ {
        Some(StylePreset::Whitesmith)
    } else if v == "vtk"@ {
        Some(StylePreset::Vtk)
    } else if v == "ratliff"@ || v == "banner"@ {
        Some(StylePreset::Ratliff)
    } else if v == "gnu"@ {
        Some(StylePreset::Gnu)
    } else if v == "horstmann"@ || v == "run-in"@ {
        Some(StylePreset::Horstmann)
    } else if v == "google"@ {
        Some(StylePreset::Google)
    } else if v == "pico"@ {
        Some(StylePreset::Pico)
    } else if v == "lisp"@ || v == "python"@ {
        Some(StylePreset::Lisp)
    } else {
        None
    }
}

/// The value of `style=`.
pub open spec fn style_spec(v: Seq<char>) -> Result<Action<Seq<char>>, Seq<char>> {
    match style_name_spec(v) {
        Some(p) => Ok(Action::Style(p)),
        None => Err("unsupported style value '"@ + v + "'"@),
    }
}

/// The value of `indent=`.
pub open spec fn indent_spec(v: Seq<char>) -> Result<Action<Seq<char>>, Seq<char>> {
    if v == "spaces"@ {
        Ok(Action::Indent(IndentStyle::Spaces, 4))
    } else if v == "tab"@ {
        Ok(Action::Indent(IndentStyle::Tabs, 4))
    } else if v == "force-tab"@ {
        Ok(Action::Indent(IndentStyle::ForceTabs, 4))
    } else if v == "force-tab-x"@ {
        Ok(Action::ForceTabWidth(8))
    } else if starts_with_spec(v, "spaces="@) {
        indent_width_spec(v.skip(7), IndentStyle::Spaces)
    } else if starts_with_spec(v, "tab="@) {
        indent_width_spec(v.skip(4), IndentStyle::Tabs)
    } else if starts_with_spec(v, "force-tab="@) {
        indent_width_spec(v.skip(10), IndentStyle::ForceTabs)
    } else if starts_with_spec(v, "force-tab-x="@) {
        tab_width_spec(v.skip(12))
    } else {
        Err(
            "expected indent=spaces=N, indent=tab=N, indent=force-tab=N, or indent=force-tab-x=N"@,
        )
    }
}

/// The value of a keyed option whose value is one word of a fixed set.
pub open spec fn word_choice_spec(key: Seq<char>, v: Seq<char>) -> Result<
    Action<Seq<char>>,
    Seq<char>,
> {
    if key == "align-pointer"@ {
        if v == "type"@ {
            Ok(Action::PointerAlign(PointerAlign::Type))
        } else if v == "middle"@ {
            Ok(Action::PointerAlign(PointerAlign::Middle))
        } else if v == "name"@ {
            Ok(Action::PointerAlign(PointerAlign::Name))
        } else {
            Err("align-pointer must be type, middle, or name"@)
        }
    } else if key == "align-reference"@ {
        if v == "none"@ {
            Ok(Action::ReferenceAlign(ReferenceAlign::Off))
        } else if v == "type"@ {
            Ok(Action::ReferenceAlign(ReferenceAlign::Type))
        } else if v == "middle"@ {
            Ok(Action::ReferenceAlign(ReferenceAlign::Middle))
        } else if v == "name"@ {
            Ok(Action::ReferenceAlign(ReferenceAlign::Name))
        } else {
            Err("align-reference must be none, type, middle, or name"@)
        }
    } else if key == "break-blocks"@ {
        if v == "all"@ {
            Ok(Action::BreakAllBlocks)
        } else {
            Err("break-blocks value must be all"@)
        }
    } else if key == "pad-method-colon"@ {
        if v == "none"@ {
            Ok(Action::MethodColonPad(ObjCColonPad::Off))
        } else if v == "all"@ {
            Ok(Action::MethodColonPad(ObjCColonPad::All))
        } else if v == "after"@ {
            Ok(Action::MethodColonPad(ObjCColonPad::After))
        } else if v == "before"@ {
            Ok(Action::MethodColonPad(ObjCColonPad::Before))
        } else {
            Err("pad-method-colon must be none, all, after, or before"@)
        }
    } else if key == "line-between-members"@ {
        if v == "all"@ {
            Ok(Action::LineBetweenAllMembers)
        } else {
            Err("line-between-members value must be all"@)
        }
    } else if key == "lineend"@ {
        if v == "linux"@ {
            Ok(Action::LineEnding(LineEnding::Lf))
        } else if v == "windows"@ {
            Ok(Action::LineEnding(LineEnding::Crlf))
        } else if v == "macold"@ {
            Ok(Action::LineEnding(LineEnding::Cr))
        } else {
            Err("unsupported lineend value '"@ + v + "'"@)
        }
    } else if v == "c"@ {
        Ok(Action::Mode(Mode::C))
    } else if v == "objc"@ {
        Ok(Action::Mode(Mode::ObjC))
    } else {
        Err("unsupported mode value '"@ + v + "'"@)
    }
}

/// Whether `key` takes one word of a fixed set as its value.
pub open spec fn is_word_choice_key(key: Seq<char>) -> bool {
    key == "align-pointer"@ || key == "align-reference"@ || key == "break-blocks"@ || key
        == "pad-method-colon"@ || key == "line-between-members"@ || key == "lineend"@ || key
        == "mode"@
}

/// `s` without the characters `c` at its end.
pub open spec fn trim_end_char_spec(s: Seq<char>, c: char) -> Seq<char>
    decreases s.len(),
{
    if s.len() > 0 && s.last() == c {
        trim_end_char_spec(s.drop_last(), c)
    } else {
        s
    }
}

/// The value of `access-label=`: a label, with the colons at its end dropped.
pub open spec fn access_label_spec(v: Seq<char>) -> Result<Action<Seq<char>>, Seq<char>> {
    let label = trim_spec(trim_end_char_spec(trim_spec(v), ':'));
    if label.len() == 0 {
        Err("access-label must not be empty"@)
    } else {
        Ok(Action::AccessLabel(label))
    }
}

/// The value of `control-header=` (`non_paren` false) or `non-paren-header=`.
pub open spec fn header_spec(v: Seq<char>, non_paren: bool) -> Result<
    Action<Seq<char>>,
    Seq<char>,
> {
    let h = trim_spec(v);
    if !is_identifier_spec(h) {
        if non_paren {
            Err("non-paren-header must be an identifier"@)
        } else {
            Err("control-header must be an identifier"@)
        }
    } else if non_paren {
        Ok(Action::NonParenHeader(h))
    } else {
        Ok(Action::ControlHeader(h))
    }
}

/// The value of `macro-block=`: two macro names, `BEGIN:END`.
pub open spec fn macro_block_spec(v: Seq<char>) -> Result<Action<Seq<char>>, Seq<char>> {
    match split_once_spec(v, ':') {
        None => Err("macro-block must be BEGIN:END"@),
        Some((b, e)) => {
            let begin = trim_spec(b);
            let end = trim_spec(e);
            if is_identifier_spec(begin) && is_identifier_spec(end) {
                Ok(Action::MacroBlock(begin, end))
            } else {
                Err("macro-block names must be identifiers"@)
            }
        },
    }
}

/// The message for an option that is not known.
pub open spec fn unknown_message(source: OptionSource, option: Seq<char>) -> Seq<char> {
    let label = match source {
        OptionSource::Config => "unknown config key"@,
        OptionSource::CommandLine => "unknown option"@,
    };
    label + " '"@ + option + "'"@
}

/// What `key=value` means (both already trimmed).
pub open spec fn keyed_spec(source: OptionSource, key: Seq<char>, v: Seq<char>) -> Result<
    Action<Seq<char>>,
    Seq<char>,
> {
    if key == "indent"@ {
        indent_spec(v)
    } else if key == "style"@ {
        style_spec(v)
    } else if key == "indent-continuation"@ {
        continuation_spec(v)
    } else if key == "max-continuation-indent"@ || key == "max-instatement-indent"@ {
        max_continuation_spec(v)
    } else if key == "min-conditional-indent"@ {
        min_conditional_spec(v)
    } else if key == "max-code-length"@ {
        max_code_length_spec(v)
    } else if is_word_choice_key(key) {
        word_choice_spec(key, v)
    } else if key == "access-label"@ {
        access_label_spec(v)
    } else if key == "macro-block"@ {
        macro_block_spec(v)
    } else if key == "control-header"@ {
        header_spec(v, false)
    } else if key == "non-paren-header"@ {
        header_spec(v, true)
    } else {
        Err(unknown_message(source, key))
    }
}

/// What one option (without its dashes) means: a short option without a
/// value, a short option with a numeric value, `key=value`, or a flag.
pub open spec fn parse_option_spec(source: OptionSource, option: Seq<char>) -> Result<
    Action<Seq<char>>,
    Seq<char>,
> {
    if is_short_name_spec(option) {
        Ok(Action::Short(option))
    } else {
        match short_value_spec(option) {
            Some(r) => r,
            None => match split_once_spec(option, '=') {
                Some((key, value)) => keyed_spec(source, trim_spec(key), trim_spec(value)),
                None => if is_flag_name_spec(option) {
                    Ok(Action::Flag(option))
                } else {
                    Err(unknown_message(source, option))
                },
            },
        }
    }
}

/// A bundle of short options cut into options: a new option starts at every
/// ASCII letter but the first character and a letter that follows an `x`.
pub open spec fn split_short_spec(s: Seq<char>) -> Seq<Seq<char>>
    decreases s.len(),
{
    if s.len() == 0 {
        seq![]
    } else {
        let prev = split_short_spec(s.drop_last());
        let i = s.len() - 1;
        if i > 0 && is_ascii_alpha_spec(s[i]) && s[i - 1] != 'x' {
            prev.push(seq![s[i]])
        } else if prev.len() == 0 {
            seq![seq![s[i]]]
        } else {
            prev.update(prev.len() - 1, prev.last().push(s[i]))
        }
    }
}

/// The actions of the options `opts`, in order, or the first option's error.
pub open spec fn options_actions_spec(source: OptionSource, opts: Seq<Seq<char>>) -> Result<
    Seq<Action<Seq<char>>>,
    Seq<char>,
>
    decreases opts.len(),
{
    if opts.len() == 0 {
        Ok(seq![])
    } else {
        match options_actions_spec(source, opts.drop_last()) {
            Err(m) => Err(m),
            Ok(acts) => match parse_option_spec(source, opts.last()) {
                Err(m) => Err(m),
                Ok(a) => Ok(acts.push(a)),
            },
        }
    }
}

/// What one token means: nothing where it is blank, the option after `--`,
/// the bundle after `-`, or else the option as written.
pub open spec fn token_actions_spec(source: OptionSource, token: Seq<char>) -> Result<
    Seq<Action<Seq<char>>>,
    Seq<char>,
> {
    let t = trim_spec(token);
    if t.len() == 0 {
        Ok(seq![])
    } else if starts_with_spec(t, "--"@) {
        options_actions_spec(source, seq![t.skip(2)])
    } else if starts_with_spec(t, "-"@) {
        if t.len() == 1 {
            Err(unknown_message(source, t))
        } else {
            options_actions_spec(source, split_short_spec(t.skip(1)))
        }
    } else {
        options_actions_spec(source, seq![t])
    }
}

/// The actions of the tokens `toks` (each with its line), up to the first
/// token in error, and that error's message, which names `path` and the line.
pub open spec fn tokens_actions_spec(
    source: OptionSource,
    path: Seq<char>,
    toks: Seq<(Seq<char>, nat)>,
) -> (Seq<Action<Seq<char>>>, Option<Seq<char>>)
    decreases toks.len(),
{
    if toks.len() == 0 {
        (seq![], None)
    } else {
        let (acts, err) = tokens_actions_spec(source, path, toks.drop_last());
        if err is Some {
            (acts, err)
        } else {
            match token_actions_spec(source, toks.last().0) {
                Ok(more) => (acts + more, None),
                Err(m) => (acts, Some(line_message(path, toks.last().1, m))),
            }
        }
    }
}

/// Where the option-file lexer stands after a prefix of the file.
pub struct LexState {
    /// The tokens found, each with its line.
    pub tokens: Seq<(Seq<char>, nat)>,
    /// The token being read.
    pub current: Seq<char>,
    /// Whether a quote is open, and which.
    pub in_quote: bool,
    pub quote: char,
    /// Whether a `#` has ended the line.
    pub stopped: bool,
    /// The line being read, from 1.
    pub line: nat,
}

/// The lexer before the first character.
pub open spec fn lex_start() -> LexState {
    LexState {
        tokens: seq![],
        current: seq![],
        in_quote: false,
        quote: ' ',
        stopped: false,
        line: 1,
    }
}

/// The token being read, trimmed, moved to the tokens unless it is blank.
pub open spec fn flush_spec(st: LexState) -> LexState {
    let t = trim_spec(st.current);
    LexState {
        tokens: if t.len() > 0 {
            st.tokens.push((t, st.line))
        } else {
            st.tokens
        },
        current: seq![],
        ..st
    }
}

/// One character of an option file: a line ends a token and any quote; `#`
/// ends the line; quotes keep spaces and commas; spaces, tabs and commas
/// separate tokens.
pub open spec fn lex_step(st: LexState, ch: char) -> LexState {
    if ch == '\n' {
        let f = flush_spec(st);
        LexState { in_quote: false, quote: ' ', stopped: false, line: f.line + 1, ..f }
    } else if st.stopped {
        st
    } else if ch == '#' {
        LexState { stopped: true, ..st }
    } else if st.in_quote {
        if ch == st.quote {
            LexState { in_quote: false, ..st }
        } else {
            LexState { current: st.current.push(ch), ..st }
        }
    } else if ch == '\'' || ch == '"' {
        LexState { in_quote: true, quote: ch, ..st }
    } else if ch == ' ' || ch == '\t' || ch == ',' {
        flush_spec(st)
    } else {
        LexState { current: st.current.push(ch), ..st }
    }
}

/// The lexer after the characters `s`.
pub open spec fn lex_prefix(s: Seq<char>) -> LexState
    decreases s.len(),
{
    if s.len() == 0 {
        lex_start()
    } else {
        lex_step(lex_prefix(s.drop_last()), s.last())
    }
}

/// An option file's text with line endings normalized and a byte-order mark
/// at its start dropped.
pub open spec fn prepared_source(source: Seq<char>) -> Seq<char> {
    let n = normalize_line_endings_spec(source);
    if n.len() > 0 && n[0] == '\u{feff}' {
        n.skip(1)
    } else {
        n
    }
}

/// The tokens of an option file, each with its line.
pub open spec fn source_tokens_spec(source: Seq<char>) -> Seq<(Seq<char>, nat)> {
    flush_spec(lex_prefix(prepared_source(source))).tokens
}

} // verus!
