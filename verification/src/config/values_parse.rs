//! Reading option values: numbers in a range and the words and digits that
//! name a setting, each with the message an invalid value gets.

use super::actions::Action;
use super::grammar::{
    access_label_spec, all_digits, bounded_spec, continuation_spec, default_param_spec,
    digit_choice_spec, digits_value, header_spec, indent_spec, indent_width_spec,
    invalid_number_message, macro_block_spec, max_code_length_spec, max_continuation_spec,
    min_conditional_spec, parse_usize_spec, range_message, short_param_spec, style_name_spec,
    style_spec, tab_width_spec, trim_end_char_spec, unsigned_digits, word_choice_spec,
};
use super::options::{
    IndentStyle, LineEnding, MinConditionalIndent, Mode, ObjCColonPad, PointerAlign,
    ReferenceAlign, StylePreset,
};
use crate::source::is_identifier;
use crate::text::{
    chars_of, decimal, is_ascii_digit, is_ascii_digit_spec, is_lit, push_all, push_lit, split_once_char,
    starts_with_lit, strip_prefix_lit, subrange, trimmed,
};
use vstd::prelude::*;

verus! {

/// The view of an optional text.
pub open spec fn text_option_view(r: Option<Vec<char>>) -> Option<Seq<char>> {
    match r {
        Some(v) => Some(v@),
        None => None,
    }
}

/// The view of a number or a message.
pub open spec fn number_result_view(r: Result<usize, Vec<char>>) -> Result<usize, Seq<char>> {
    match r {
        Ok(v) => Ok(v),
        Err(m) => Err(m@),
    }
}

/// The view of an action or a message.
pub open spec fn action_result_view(r: Result<Action<Vec<char>>, Vec<char>>) -> Result<
    Action<Seq<char>>,
    Seq<char>,
> {
    match r {
        Ok(a) => Ok(a@),
        Err(m) => Err(m@),
    }
}

/// The value of the short option `name` written as `option`.
pub fn short_param(option: &[char], name: &str) -> (r: Option<Vec<char>>)
    ensures
        text_option_view(r) == short_param_spec(option@, name@),
{
    match strip_prefix_lit(option, name) {
        Some(v) => {
            if v.len() == 0 || is_ascii_digit(v[0]) {
                Some(v)
            } else {
                None
            }
        },
        None => None,
    }
}

/// `value`, or `default` where `value` is empty.
pub fn default_param(value: Vec<char>, default: &str) -> (r: Vec<char>)
    ensures
        r@ == default_param_spec(value@, default@),
{
    if value.len() == 0 {
        chars_of(default)
    } else {
        value
    }
}

/// A number spelled by ASCII digits is at least the number spelled by a prefix of them.
proof fn lemma_digits_value_prefix(s: Seq<char>, k: int)
    requires
        0 <= k <= s.len(),
    ensures
        digits_value(s.take(k)) <= digits_value(s),
    decreases s.len(),
{
    if k < s.len() {
        assert(s.drop_last().take(k) =~= s.take(k));
        lemma_digits_value_prefix(s.drop_last(), k);
    } else {
        assert(s.take(k) =~= s);
    }
}

/// `raw` read as a `usize`, as `str::parse::<usize>` reads it.
pub fn parse_usize(raw: &[char]) -> (r: Option<usize>)
    ensures
        r == parse_usize_spec(raw@),
{
    let start: usize = if raw.len() > 0 && raw[0] == '+' {
        1
    } else {
        0
    };
    let ghost d = unsigned_digits(raw@);
    assert(d =~= raw@.skip(start as int));
    if start == raw.len() {
        return None;
    }
    let mut value: usize = 0;
    let mut i: usize = start;
    while i < raw.len()
        invariant
            start <= i <= raw@.len(),
            d == raw@.skip(start as int),
            d == unsigned_digits(raw@),
            all_digits(d.take(i - start)),
            value == digits_value(d.take(i - start)),
        decreases raw.len() - i,
    {
        let c = raw[i];
        let ghost k = i - start;
        assert(d[k] == c);
        assert(d.take(k + 1).drop_last() =~= d.take(k));
        assert(d.take(k + 1).last() == c);
        if !is_ascii_digit(c) {
            assert(!is_ascii_digit_spec(d[k as int]));
            assert(!all_digits(d));
            return None;
        }
        let digit: usize = ((c as u32) - ('0' as u32)) as usize;
        assert(digit == (c as nat) - ('0' as nat));
        assert(digits_value(d.take(k + 1)) == value * 10 + digit);
        match value.checked_mul(10) {
            Some(tens) => match tens.checked_add(digit) {
                Some(next) => {
                    value = next;
                },
                None => {
                    proof {
                        lemma_digits_value_prefix(d, k + 1);
                    }
                    return None;
                },
            },
            None => {
                proof {
                    lemma_digits_value_prefix(d, k + 1);
                }
                return None;
            },
        }
        i = i + 1;
    }
    assert(d.take(i - start) =~= d);
    Some(value)
}

/// `"invalid " + label + " '" + raw + "'"`.
fn invalid_number(label: &str, raw: &[char]) -> (r: Vec<char>)
    ensures
        r@ == invalid_number_message(label@, raw@),
{
    let mut m: Vec<char> = Vec::new();
    push_lit(&mut m, "invalid ");
    push_lit(&mut m, label);
    push_lit(&mut m, " '");
    push_all(&mut m, raw);
    push_lit(&mut m, "'");
    m
}

/// `label + " must be between " + min + " and " + max`.
fn out_of_range(label: &str, min: usize, max: usize) -> (r: Vec<char>)
    ensures
        r@ == range_message(label@, min, max),
{
    let mut m: Vec<char> = Vec::new();
    push_lit(&mut m, label);
    push_lit(&mut m, " must be between ");
    let a = decimal(min);
    push_all(&mut m, a.as_slice());
    push_lit(&mut m, " and ");
    let b = decimal(max);
    push_all(&mut m, b.as_slice());
    m
}

/// `raw` read as a number between `min` and `max`.
pub fn bounded(raw: &[char], label: &str, min: usize, max: usize) -> (r: Result<usize, Vec<char>>)
    ensures
        number_result_view(r) == bounded_spec(raw@, label@, min, max),
{
    match parse_usize(raw) {
        None => Err(invalid_number(label, raw)),
        Some(v) => {
            if min <= v && v <= max {
                Ok(v)
            } else {
                Err(out_of_range(label, min, max))
            }
        },
    }
}

/// An indentation of style `style` whose width is written `raw`.
pub fn indent_width(raw: &[char], style: IndentStyle) -> (r: Result<Action<Vec<char>>, Vec<char>>)
    ensures
        action_result_view(r) == indent_width_spec(raw@, style),
{
    match bounded(raw, "indent width", 2, 20) {
        Ok(w) => Ok(Action::Indent(style, w)),
        Err(m) => Err(m),
    }
}

/// Forced tab indentation whose tab width is written `raw`.
pub fn tab_width(raw: &[char]) -> (r: Result<Action<Vec<char>>, Vec<char>>)
    ensures
        action_result_view(r) == tab_width_spec(raw@),
{
    match bounded(raw, "tab width", 2, 20) {
        Ok(w) => Ok(Action::ForceTabWidth(w)),
        Err(m) => Err(m),
    }
}

/// The continuation indent written `raw`.
pub fn continuation(raw: &[char]) -> (r: Result<Action<Vec<char>>, Vec<char>>)
    ensures
        action_result_view(r) == continuation_spec(raw@),
{
    match bounded(raw, "continuation indent", 0, 4) {
        Ok(v) => Ok(Action::ContinuationIndent(v)),
        Err(m) => Err(m),
    }
}

/// The maximal continuation indent written `raw`.
pub fn max_continuation(raw: &[char]) -> (r: Result<Action<Vec<char>>, Vec<char>>)
    ensures
        action_result_view(r) == max_continuation_spec(raw@),
{
    match bounded(raw, "max continuation indent", 40, 120) {
        Ok(v) => Ok(Action::MaxContinuationIndent(v)),
        Err(m) => Err(m),
    }
}

/// The maximal code length written `raw`.
pub fn max_code_length(raw: &[char]) -> (r: Result<Action<Vec<char>>, Vec<char>>)
    ensures
        action_result_view(r) == max_code_length_spec(raw@),
{
    match bounded(raw, "max code length", 50, 200) {
        Ok(v) => Ok(Action::MaxCodeLength(v)),
        Err(m) => Err(m),
    }
}

/// The minimal conditional indent written `v`.
pub fn min_conditional(v: &[char]) -> (r: Result<Action<Vec<char>>, Vec<char>>)
    ensures
        action_result_view(r) == min_conditional_spec(v@),
{
    if is_lit(v, "0") {
        Ok(Action::MinConditionalIndent(MinConditionalIndent::Zero))
    } else if is_lit(v, "1") {
        Ok(Action::MinConditionalIndent(MinConditionalIndent::One))
    } else if is_lit(v, "2") {
        Ok(Action::MinConditionalIndent(MinConditionalIndent::Two))
    } else if is_lit(v, "3") {
        Ok(Action::MinConditionalIndent(MinConditionalIndent::OneHalf))
    } else {
        Err(chars_of("min conditional indent must be 0, 1, 2, or 3"))
    }
}

/// The value of the short options `k`, `W`, `z` and `xP`.
pub fn digit_choice(name: &[char], v: &[char]) -> (r: Result<Action<Vec<char>>, Vec<char>>)
    ensures
        action_result_view(r) == digit_choice_spec(name@, v@),
{
    if is_lit(name, "k") {
        if is_lit(v, "1") {
            Ok(Action::PointerAlign(PointerAlign::Type))
        } else if is_lit(v, "2") {
            Ok(Action::PointerAlign(PointerAlign::Middle))
        } else if is_lit(v, "3") {
            Ok(Action::PointerAlign(PointerAlign::Name))
        } else {
            Err(chars_of("align-pointer must be 1, 2, or 3"))
        }
    } else if is_lit(name, "W") {
        if is_lit(v, "0") {
            Ok(Action::ReferenceAlign(ReferenceAlign::Off))
        } else if is_lit(v, "1") {
            Ok(Action::ReferenceAlign(ReferenceAlign::Type))
        } else if is_lit(v, "2") {
            Ok(Action::ReferenceAlign(ReferenceAlign::Middle))
        } else if is_lit(v, "3") {
            Ok(Action::ReferenceAlign(ReferenceAlign::Name))
        } else {
            Err(chars_of("align-reference must be 0, 1, 2, or 3"))
        }
    } else if is_lit(name, "z") {
        if is_lit(v, "1") {
            Ok(Action::LineEnding(LineEnding::Crlf))
        } else if is_lit(v, "2") {
            Ok(Action::LineEnding(LineEnding::Lf))
        } else if is_lit(v, "3") {
            Ok(Action::LineEnding(LineEnding::Cr))
        } else {
            Err(chars_of("lineend must be 1, 2, or 3"))
        }
    } else if is_lit(v, "0") {
        Ok(Action::MethodColonPad(ObjCColonPad::Off))
    } else if is_lit(v, "1") {
        Ok(Action::MethodColonPad(ObjCColonPad::All))
    } else if is_lit(v, "2") {
        Ok(Action::MethodColonPad(ObjCColonPad::After))
    } else if is_lit(v, "3") {
        Ok(Action::MethodColonPad(ObjCColonPad::Before))
    } else {
        Err(chars_of("pad-method-colon must be 0, 1, 2, or 3"))
    }
}

/// The preset that a `style=` value names.
pub fn style_name(v: &[char]) -> (r: Option<StylePreset>)
    ensures
        r == style_name_spec(v@),
{
    if is_lit(v, "none") {
        Some(StylePreset::Off)
    } else if is_lit(v, "allman") || is_lit(v, "bsd") || is_lit(v, "break") || is_lit(v, "ansi") {
        Some(StylePreset::Allman)
    } else if is_lit(v, "java") || is_lit(v, "attach") {
        Some(StylePreset::Java)
    } else if is_lit(v, "kr") || is_lit(v, "k&r") || is_lit(v, "k/r") {
        Some(StylePreset::Kr)
    } else if is_lit(v, "linux") || is_lit(v, "knf") {
        Some(StylePreset::Linux)
    } else if is_lit(v, "mozilla") {
        Some(StylePreset::Mozilla)
    } else if is_lit(v, "webkit") {
        Some(StylePreset::WebKit)
    } else if is_lit(v, "stroustrup") {
        Some(StylePreset::Stroustrup)
    } else if is_lit(v, "1tbs") || is_lit(v, "otbs") {
        Some(StylePreset::OneTrueBrace)
    } else if is_lit(v, "whitesmith") {
        Some(StylePreset::Whitesmith)
    } else if is_lit(v, "vtk") {
        Some(StylePreset::Vtk)
    } else if is_lit(v, "ratliff") || is_lit(v, "banner") {
        Some(StylePreset::Ratliff)
    } else if is_lit(v, "gnu") {
        Some(StylePreset::Gnu)
    } else if is_lit(v, "horstmann") || is_lit(v, "run-in") {
        Some(StylePreset::Horstmann)
    } else if is_lit(v, "google") {
        Some(StylePreset::Google)
    } else if is_lit(v, "pico") {
        Some(StylePreset::Pico)
    } else if is_lit(v, "lisp") || is_lit(v, "python") {
        Some(StylePreset::Lisp)
    } else {
        None
    }
}

/// `lead + v + "'"`.
fn quoted_message(lead: &str, v: &[char]) -> (r: Vec<char>)
    ensures
        r@ == lead@ + v@ + "'"@,
{
    let mut m: Vec<char> = Vec::new();
    push_lit(&mut m, lead);
    push_all(&mut m, v);
    push_lit(&mut m, "'");
    m
}

/// The value of `style=`.
pub fn style_value(v: &[char]) -> (r: Result<Action<Vec<char>>, Vec<char>>)
    ensures
        action_result_view(r) == style_spec(v@),
{
    match style_name(v) {
        Some(p) => Ok(Action::Style(p)),
        None => Err(quoted_message("unsupported style value '", v)),
    }
}

/// The value of `indent=`.
pub fn indent_value(v: &[char]) -> (r: Result<Action<Vec<char>>, Vec<char>>)
    ensures
        action_result_view(r) == indent_spec(v@),
{
    proof {
        reveal_strlit("spaces=");
        reveal_strlit("tab=");
        reveal_strlit("force-tab=");
        reveal_strlit("force-tab-x=");
    }
    if is_lit(v, "spaces") {
        Ok(Action::Indent(IndentStyle::Spaces, 4))
    } else if is_lit(v, "tab") {
        Ok(Action::Indent(IndentStyle::Tabs, 4))
    } else if is_lit(v, "force-tab") {
        Ok(Action::Indent(IndentStyle::ForceTabs, 4))
    } else if is_lit(v, "force-tab-x") {
        Ok(Action::ForceTabWidth(8))
    } else if let Some(rest) = strip_prefix_lit(v, "spaces=") {
        indent_width(rest.as_slice(), IndentStyle::Spaces)
    } else if let Some(rest) = strip_prefix_lit(v, "tab=") {
        indent_width(rest.as_slice(), IndentStyle::Tabs)
    } else if let Some(rest) = strip_prefix_lit(v, "force-tab=") {
        indent_width(rest.as_slice(), IndentStyle::ForceTabs)
    } else if let Some(rest) = strip_prefix_lit(v, "force-tab-x=") {
        tab_width(rest.as_slice())
    } else {
        Err(
            chars_of(
                "expected indent=spaces=N, indent=tab=N, indent=force-tab=N, or indent=force-tab-x=N",
            ),
        )
    }
}

/// The value of a keyed option whose value is one word of a fixed set.
pub fn word_choice(key: &[char], v: &[char]) -> (r: Result<Action<Vec<char>>, Vec<char>>)
    ensures
        action_result_view(r) == word_choice_spec(key@, v@),
{
    if is_lit(key, "align-pointer") {
        if is_lit(v, "type") {
            Ok(Action::PointerAlign(PointerAlign::Type))
        } else if is_lit(v, "middle") {
            Ok(Action::PointerAlign(PointerAlign::Middle))
        } else if is_lit(v, "name") {
            Ok(Action::PointerAlign(PointerAlign::Name))
        } else {
            Err(chars_of("align-pointer must be type, middle, or name"))
        }
    } else if is_lit(key, "align-reference") {
        if is_lit(v, "none") {
            Ok(Action::ReferenceAlign(ReferenceAlign::Off))
        } else if is_lit(v, "type") {
            Ok(Action::ReferenceAlign(ReferenceAlign::Type))
        } else if is_lit(v, "middle") {
            Ok(Action::ReferenceAlign(ReferenceAlign::Middle))
        } else if is_lit(v, "name") {
            Ok(Action::ReferenceAlign(ReferenceAlign::Name))
        } else {
            Err(chars_of("align-reference must be none, type, middle, or name"))
        }
    } else if is_lit(key, "break-blocks") {
        if is_lit(v, "all") {
            Ok(Action::BreakAllBlocks)
        } else {
            Err(chars_of("break-blocks value must be all"))
        }
    } else if is_lit(key, "pad-method-colon") {
        if is_lit(v, "none") {
            Ok(Action::MethodColonPad(ObjCColonPad::Off))
        } else if is_lit(v, "all") {
            Ok(Action::MethodColonPad(ObjCColonPad::All))
        } else if is_lit(v, "after") {
            Ok(Action::MethodColonPad(ObjCColonPad::After))
        } else if is_lit(v, "before") {
            Ok(Action::MethodColonPad(ObjCColonPad::Before))
        } else {
            Err(chars_of("pad-method-colon must be none, all, after, or before"))
        }
    } else if is_lit(key, "line-between-members") {
        if is_lit(v, "all") {
            Ok(Action::LineBetweenAllMembers)
        } else {
            Err(chars_of("line-between-members value must be all"))
        }
    } else if is_lit(key, "lineend") {
        if is_lit(v, "linux") {
            Ok(Action::LineEnding(LineEnding::Lf))
        } else if is_lit(v, "windows") {
            Ok(Action::LineEnding(LineEnding::Crlf))
        } else if is_lit(v, "macold") {
            Ok(Action::LineEnding(LineEnding::Cr))
        } else {
            Err(quoted_message("unsupported lineend value '", v))
        }
    } else if is_lit(v, "c") {
        Ok(Action::Mode(Mode::C))
    } else if is_lit(v, "objc") {
        Ok(Action::Mode(Mode::ObjC))
    } else {
        Err(quoted_message("unsupported mode value '", v))
    }
}

/// `s` without the characters `c` at its end.
pub fn trim_end_char(s: &[char], c: char) -> (r: Vec<char>)
    ensures
        r@ == trim_end_char_spec(s@, c),
{
    let mut j: usize = s.len();
    assert(s@.take(j as int) =~= s@);
    while j > 0 && s[j - 1] == c
        invariant
            j <= s@.len(),
            trim_end_char_spec(s@.take(j as int), c) == trim_end_char_spec(s@, c),
        decreases j,
    {
        assert(s@.take(j as int).drop_last() =~= s@.take(j - 1));
        j = j - 1;
    }
    subrange(s, 0, j)
}

/// The value of `access-label=`.
pub fn access_label(v: &[char]) -> (r: Result<Action<Vec<char>>, Vec<char>>)
    ensures
        action_result_view(r) == access_label_spec(v@),
{
    let t = trimmed(v);
    let u = trim_end_char(t.as_slice(), ':');
    let label = trimmed(u.as_slice());
    if label.len() == 0 {
        Err(chars_of("access-label must not be empty"))
    } else {
        Ok(Action::AccessLabel(label))
    }
}

/// The value of `control-header=` (`non_paren` false) or `non-paren-header=`.
pub fn header(v: &[char], non_paren: bool) -> (r: Result<Action<Vec<char>>, Vec<char>>)
    ensures
        action_result_view(r) == header_spec(v@, non_paren),
{
    let h = trimmed(v);
    if !is_identifier(h.as_slice()) {
        if non_paren {
            Err(chars_of("non-paren-header must be an identifier"))
        } else {
            Err(chars_of("control-header must be an identifier"))
        }
    } else if non_paren {
        Ok(Action::NonParenHeader(h))
    } else {
        Ok(Action::ControlHeader(h))
    }
}

/// The value of `macro-block=`.
pub fn macro_block(v: &[char]) -> (r: Result<Action<Vec<char>>, Vec<char>>)
    ensures
        action_result_view(r) == macro_block_spec(v@),
{
    match split_once_char(v, ':') {
        None => Err(chars_of("macro-block must be BEGIN:END")),
        Some((b, e)) => {
            let begin = trimmed(b.as_slice());
            let end = trimmed(e.as_slice());
            if is_identifier(begin.as_slice()) && is_identifier(end.as_slice()) {
                Ok(Action::MacroBlock(begin, end))
            } else {
                Err(chars_of("macro-block names must be identifiers"))
            }
        },
    }
}

} // verus!
