//! The option tables, as running code: each function tests the name against
//! its part of the table and applies what that entry sets.

use super::actions::{add_braces_spec, add_one_line_braces_spec, attach_return_type_decl_spec, attach_return_type_spec, break_return_type_decl_spec, break_return_type_spec, flag_table_spec_0, flag_table_spec_1, flag_table_spec_2, flag_table_spec_3, flag_table_spec_4, flag_table_spec_5, is_flag_name_spec_0, is_flag_name_spec_1, is_flag_name_spec_2, is_flag_name_spec_3, is_flag_name_spec_4, is_flag_name_spec_5, is_short_name_spec_0, is_short_name_spec_1, is_short_name_spec_2, is_short_name_spec_3, is_short_name_spec_4, is_short_name_spec_5, keep_one_line_statements_spec, remove_braces_spec, short_table_spec_0, short_table_spec_1, short_table_spec_2, short_table_spec_3, short_table_spec_4, short_table_spec_5};
use super::options::{FormatOptions, LineBetweenMembers, StylePreset};
use super::setters::{with_one_line_blocks_kept, with_style};
use crate::text::is_lit;
use vstd::prelude::*;

verus! {

/// `o` after `keep-one-line-statements`.
fn with_one_line_statements_kept(o: FormatOptions) -> (r: FormatOptions)
    ensures
        r == keep_one_line_statements_spec(o),
{
    FormatOptions { break_one_line_statements: false, ..o }
}

/// `o` after `add-braces`.
fn with_braces_added(o: FormatOptions) -> (r: FormatOptions)
    ensures
        r == add_braces_spec(o),
{
    FormatOptions { add_braces: true, remove_braces: false, ..o }
}

/// `o` after `add-one-line-braces`.
fn with_one_line_braces_added(o: FormatOptions) -> (r: FormatOptions)
    ensures
        r == add_one_line_braces_spec(o),
{
    FormatOptions {
        add_one_line_braces: true,
        remove_braces: false,
        break_one_line_blocks: false,
        ..o
    }
}

/// `o` after `remove-braces`.
fn with_braces_removed(o: FormatOptions) -> (r: FormatOptions)
    ensures
        r == remove_braces_spec(o),
{
    if !o.add_braces && !o.add_one_line_braces {
        FormatOptions { remove_braces: true, ..o }
    } else {
        o
    }
}

/// `o` after `break-return-type`.
fn with_return_type_broken(o: FormatOptions) -> (r: FormatOptions)
    ensures
        r == break_return_type_spec(o),
{
    FormatOptions { break_return_type: true, attach_return_type: false, ..o }
}

/// `o` after `break-return-type-decl`.
fn with_return_type_decl_broken(o: FormatOptions) -> (r: FormatOptions)
    ensures
        r == break_return_type_decl_spec(o),
{
    FormatOptions { break_return_type_decl: true, attach_return_type_decl: false, ..o }
}

/// `o` after `attach-return-type`.
fn with_return_type_attached(o: FormatOptions) -> (r: FormatOptions)
    ensures
        r == attach_return_type_spec(o),
{
    if !o.break_return_type {
        FormatOptions { attach_return_type: true, ..o }
    } else {
        o
    }
}

/// `o` after `attach-return-type-decl`.
fn with_return_type_decl_attached(o: FormatOptions) -> (r: FormatOptions)
    ensures
        r == attach_return_type_decl_spec(o),
{
    if !o.break_return_type_decl {
        FormatOptions { attach_return_type_decl: true, ..o }
    } else {
        o
    }
}

/// Whether `name` is a flag option. (part 1 of 6 of the names).
pub fn is_flag_name(name: &[char]) -> (r: bool)
    ensures
        r == is_flag_name_spec_0(name@),
{
    is_lit(name, "indent-after-parens")
        || is_lit(name, "indent-braces")
        || is_lit(name, "indent-blocks")
        || is_lit(name, "indent-switches")
        || is_lit(name, "indent-cases")
        || is_lit(name, "indent-labels")
        || is_lit(name, "indent-classes")
        || is_lit(name, "indent-modifiers")
        || is_lit(name, "indent-preprocessor")
        || is_lit(name, "indent-preproc-define")
        || is_lit(name, "indent-preproc-cond")
        || is_lit(name, "indent-preproc-block")
        || is_flag_name_1(name)
}

/// Whether `name` is a flag option. (part 2 of 6 of the names).
fn is_flag_name_1(name: &[char]) -> (r: bool)
    ensures
        r == is_flag_name_spec_1(name@),
{
    is_lit(name, "indent-namespaces")
        || is_lit(name, "indent-col1-comments")
        || is_lit(name, "delete-empty-lines")
        || is_lit(name, "fill-empty-lines")
        || is_lit(name, "remove-comment-prefix")
        || is_lit(name, "convert-tabs")
        || is_lit(name, "close-templates")
        || is_lit(name, "pad-method-prefix")
        || is_lit(name, "unpad-method-prefix")
        || is_lit(name, "pad-return-type")
        || is_lit(name, "unpad-return-type")
        || is_lit(name, "pad-param-type")
        || is_flag_name_2(name)
}

/// Whether `name` is a flag option. (part 3 of 6 of the names).
fn is_flag_name_2(name: &[char]) -> (r: bool)
    ensures
        r == is_flag_name_spec_2(name@),
{
    is_lit(name, "unpad-param-type")
        || is_lit(name, "align-method-colon")
        || is_lit(name, "break-one-line-headers")
        || is_lit(name, "keep-one-line-blocks")
        || is_lit(name, "keep-one-line-statements")
        || is_lit(name, "add-braces")
        || is_lit(name, "add-brackets")
        || is_lit(name, "add-one-line-braces")
        || is_lit(name, "add-one-line-brackets")
        || is_lit(name, "remove-braces")
        || is_lit(name, "remove-brackets")
        || is_lit(name, "pad-oper")
        || is_flag_name_3(name)
}

/// Whether `name` is a flag option. (part 4 of 6 of the names).
fn is_flag_name_3(name: &[char]) -> (r: bool)
    ensures
        r == is_flag_name_spec_3(name@),
{
    is_lit(name, "pad-comma")
        || is_lit(name, "pad-paren")
        || is_lit(name, "pad-paren-out")
        || is_lit(name, "pad-first-paren-out")
        || is_lit(name, "pad-paren-in")
        || is_lit(name, "pad-header")
        || is_lit(name, "unpad-paren")
        || is_lit(name, "break-after-logical")
        || is_lit(name, "break-blocks")
        || is_lit(name, "break-closing-braces")
        || is_lit(name, "break-closing-brackets")
        || is_lit(name, "attach-namespaces")
        || is_flag_name_4(name)
}

/// Whether `name` is a flag option. (part 5 of 6 of the names).
fn is_flag_name_4(name: &[char]) -> (r: bool)
    ensures
        r == is_flag_name_spec_4(name@),
{
    is_lit(name, "attach-namespace")
        || is_lit(name, "attach-classes")
        || is_lit(name, "attach-class")
        || is_lit(name, "attach-inlines")
        || is_lit(name, "attach-inline")
        || is_lit(name, "attach-extern-c")
        || is_lit(name, "attach-closing-while")
        || is_lit(name, "break-elseifs")
        || is_lit(name, "no-indent-if-after-else")
        || is_lit(name, "line-between-members")
        || is_lit(name, "break-return-type")
        || is_lit(name, "break-return-type-decl")
        || is_flag_name_5(name)
}

/// Whether `name` is a flag option. (part 6 of 6 of the names).
fn is_flag_name_5(name: &[char]) -> (r: bool)
    ensures
        r == is_flag_name_spec_5(name@),
{
    is_lit(name, "attach-return-type")
        || is_lit(name, "attach-return-type-decl")
        || false
}

/// Whether `name` is a short option without a value. (part 1 of 6 of the names).
pub fn is_short_name(name: &[char]) -> (r: bool)
    ensures
        r == is_short_name_spec_0(name@),
{
    is_lit(name, "A1")
        || is_lit(name, "A2")
        || is_lit(name, "A3")
        || is_lit(name, "A4")
        || is_lit(name, "A5")
        || is_lit(name, "A6")
        || is_lit(name, "A7")
        || is_lit(name, "A8")
        || is_lit(name, "A9")
        || is_lit(name, "A10")
        || is_lit(name, "A11")
        || is_lit(name, "A12")
        || is_short_name_1(name)
}

/// Whether `name` is a short option without a value. (part 2 of 6 of the names).
fn is_short_name_1(name: &[char]) -> (r: bool)
    ensures
        r == is_short_name_spec_1(name@),
{
    is_lit(name, "A14")
        || is_lit(name, "A15")
        || is_lit(name, "A16")
        || is_lit(name, "A17")
        || is_lit(name, "S")
        || is_lit(name, "K")
        || is_lit(name, "xU")
        || is_lit(name, "L")
        || is_lit(name, "C")
        || is_lit(name, "xG")
        || is_lit(name, "xW")
        || is_lit(name, "w")
        || is_short_name_2(name)
}

/// Whether `name` is a short option without a value. (part 3 of 6 of the names).
fn is_short_name_2(name: &[char]) -> (r: bool)
    ensures
        r == is_short_name_spec_2(name@),
{
    is_lit(name, "xw")
        || is_lit(name, "N")
        || is_lit(name, "Y")
        || is_lit(name, "xe")
        || is_lit(name, "E")
        || is_lit(name, "xp")
        || is_lit(name, "c")
        || is_lit(name, "xy")
        || is_lit(name, "xQ")
        || is_lit(name, "xR")
        || is_lit(name, "xq")
        || is_lit(name, "xr")
        || is_short_name_3(name)
}

/// Whether `name` is a short option without a value. (part 4 of 6 of the names).
fn is_short_name_3(name: &[char]) -> (r: bool)
    ensures
        r == is_short_name_spec_3(name@),
{
    is_lit(name, "xS")
        || is_lit(name, "xs")
        || is_lit(name, "xM")
        || is_lit(name, "xb")
        || is_lit(name, "O")
        || is_lit(name, "o")
        || is_lit(name, "j")
        || is_lit(name, "J")
        || is_lit(name, "xj")
        || is_lit(name, "p")
        || is_lit(name, "xg")
        || is_lit(name, "P")
        || is_short_name_4(name)
}

/// Whether `name` is a short option without a value. (part 5 of 6 of the names).
fn is_short_name_4(name: &[char]) -> (r: bool)
    ensures
        r == is_short_name_spec_4(name@),
{
    is_lit(name, "d")
        || is_lit(name, "xd")
        || is_lit(name, "D")
        || is_lit(name, "H")
        || is_lit(name, "U")
        || is_lit(name, "xL")
        || is_lit(name, "f")
        || is_lit(name, "F")
        || is_lit(name, "y")
        || is_lit(name, "xn")
        || is_lit(name, "xc")
        || is_lit(name, "xl")
        || is_short_name_5(name)
}

/// Whether `name` is a short option without a value. (part 6 of 6 of the names).
fn is_short_name_5(name: &[char]) -> (r: bool)
    ensures
        r == is_short_name_spec_5(name@),
{
    is_lit(name, "xk")
        || is_lit(name, "xV")
        || is_lit(name, "e")
        || is_lit(name, "xB")
        || is_lit(name, "xD")
        || is_lit(name, "xf")
        || is_lit(name, "xh")
        || false
}

/// What a flag option sets (part 1 of 6).
pub fn flag_table_0(name: &[char], o: FormatOptions) -> (r: FormatOptions)
    ensures
        r == flag_table_spec_0(name@, o),
{
    if is_lit(name, "indent-after-parens") {
        FormatOptions { indent_after_parens: true, ..o }
    } else if is_lit(name, "indent-braces") {
        FormatOptions { indent_braces: true, ..o }
    } else if is_lit(name, "indent-blocks") {
        FormatOptions { indent_blocks: true, ..o }
    } else if is_lit(name, "indent-switches") {
        FormatOptions { indent_switches: true, ..o }
    } else if is_lit(name, "indent-cases") {
        FormatOptions { indent_cases: true, ..o }
    } else if is_lit(name, "indent-labels") {
        FormatOptions { indent_labels: true, ..o }
    } else if is_lit(name, "indent-classes") {
        FormatOptions { indent_classes: true, ..o }
    } else if is_lit(name, "indent-modifiers") {
        FormatOptions { indent_modifiers: true, ..o }
    } else if is_lit(name, "indent-preprocessor") || is_lit(name, "indent-preproc-define") {
        FormatOptions { indent_preproc_define: true, ..o }
    } else if is_lit(name, "indent-preproc-cond") {
        FormatOptions { indent_preproc_conditional: true, ..o }
    } else {
        flag_table_1(name, o)
    }
}

/// What a flag option sets (part 2 of 6).
fn flag_table_1(name: &[char], o: FormatOptions) -> (r: FormatOptions)
    ensures
        r == flag_table_spec_1(name@, o),
{
    if is_lit(name, "indent-preproc-block") {
        FormatOptions { indent_preproc_block: true, ..o }
    } else if is_lit(name, "indent-namespaces") {
        FormatOptions { indent_namespaces: true, ..o }
    } else if is_lit(name, "indent-col1-comments") {
        FormatOptions { indent_col1_comments: true, ..o }
    } else if is_lit(name, "delete-empty-lines") {
        FormatOptions { delete_empty_lines: true, ..o }
    } else if is_lit(name, "fill-empty-lines") {
        FormatOptions { empty_line_fill: true, ..o }
    } else if is_lit(name, "remove-comment-prefix") {
        FormatOptions { strip_comment_prefix: true, ..o }
    } else if is_lit(name, "convert-tabs") {
        FormatOptions { convert_tabs: true, ..o }
    } else if is_lit(name, "close-templates") {
        FormatOptions { close_templates: true, ..o }
    } else if is_lit(name, "pad-method-prefix") {
        FormatOptions { pad_method_prefix: true, ..o }
    } else if is_lit(name, "unpad-method-prefix") {
        FormatOptions { unpad_method_prefix: true, ..o }
    } else {
        flag_table_2(name, o)
    }
}

/// What a flag option sets (part 3 of 6).
fn flag_table_2(name: &[char], o: FormatOptions) -> (r: FormatOptions)
    ensures
        r == flag_table_spec_2(name@, o),
{
    if is_lit(name, "pad-return-type") {
        FormatOptions { pad_return_type: true, ..o }
    } else if is_lit(name, "unpad-return-type") {
        FormatOptions { unpad_return_type: true, ..o }
    } else if is_lit(name, "pad-param-type") {
        FormatOptions { pad_param_type: true, ..o }
    } else if is_lit(name, "unpad-param-type") {
        FormatOptions { unpad_param_type: true, ..o }
    } else if is_lit(name, "align-method-colon") {
        FormatOptions { align_method_colon: true, ..o }
    } else if is_lit(name, "break-one-line-headers") {
        FormatOptions { break_one_line_headers: true, ..o }
    } else if is_lit(name, "keep-one-line-blocks") {
        with_one_line_blocks_kept(o)
    } else if is_lit(name, "keep-one-line-statements") {
        with_one_line_statements_kept(o)
    } else if is_lit(name, "add-braces") || is_lit(name, "add-brackets") {
        with_braces_added(o)
    } else if is_lit(name, "add-one-line-braces") || is_lit(name, "add-one-line-brackets") {
        with_one_line_braces_added(o)
    } else {
        flag_table_3(name, o)
    }
}

/// What a flag option sets (part 4 of 6).
fn flag_table_3(name: &[char], o: FormatOptions) -> (r: FormatOptions)
    ensures
        r == flag_table_spec_3(name@, o),
{
    if is_lit(name, "remove-braces") || is_lit(name, "remove-brackets") {
        with_braces_removed(o)
    } else if is_lit(name, "pad-oper") {
        FormatOptions { pad_operators: true, ..o }
    } else if is_lit(name, "pad-comma") {
        FormatOptions { pad_commas: true, ..o }
    } else if is_lit(name, "pad-paren") {
        FormatOptions { pad_parens_outside: true, pad_parens_inside: true, ..o }
    } else if is_lit(name, "pad-paren-out") {
        FormatOptions { pad_parens_outside: true, ..o }
    } else if is_lit(name, "pad-first-paren-out") {
        FormatOptions { pad_first_paren_outside: true, ..o }
    } else if is_lit(name, "pad-paren-in") {
        FormatOptions { pad_parens_inside: true, ..o }
    } else if is_lit(name, "pad-header") {
        FormatOptions { pad_header: true, ..o }
    } else if is_lit(name, "unpad-paren") {
        FormatOptions { unpad_parens: true, ..o }
    } else if is_lit(name, "break-after-logical") {
        FormatOptions { break_after_logical: true, ..o }
    } else {
        flag_table_4(name, o)
    }
}

/// What a flag option sets (part 5 of 6).
fn flag_table_4(name: &[char], o: FormatOptions) -> (r: FormatOptions)
    ensures
        r == flag_table_spec_4(name@, o),
{
    if is_lit(name, "break-blocks") {
        FormatOptions { break_blocks: true, ..o }
    } else if is_lit(name, "break-closing-braces") || is_lit(name, "break-closing-brackets") {
        FormatOptions { break_closing_braces: true, ..o }
    } else if is_lit(name, "attach-namespaces") || is_lit(name, "attach-namespace") {
        FormatOptions { attach_namespace: true, ..o }
    } else if is_lit(name, "attach-classes") || is_lit(name, "attach-class") {
        FormatOptions { attach_class: true, ..o }
    } else if is_lit(name, "attach-inlines") || is_lit(name, "attach-inline") {
        FormatOptions { attach_inline: true, ..o }
    } else if is_lit(name, "attach-extern-c") {
        FormatOptions { attach_extern_c: true, ..o }
    } else if is_lit(name, "attach-closing-while") {
        FormatOptions { attach_closing_while: true, ..o }
    } else if is_lit(name, "break-elseifs") {
        FormatOptions { break_else_ifs: true, ..o }
    } else if is_lit(name, "no-indent-if-after-else") {
        FormatOptions { no_indent_if_after_else: true, ..o }
    } else if is_lit(name, "line-between-members") {
        FormatOptions { line_between_members: LineBetweenMembers::Members, ..o }
    } else {
        flag_table_5(name, o)
    }
}

/// What a flag option sets (part 6 of 6).
fn flag_table_5(name: &[char], o: FormatOptions) -> (r: FormatOptions)
    ensures
        r == flag_table_spec_5(name@, o),
{
    if is_lit(name, "break-return-type") {
        with_return_type_broken(o)
    } else if is_lit(name, "break-return-type-decl") {
        with_return_type_decl_broken(o)
    } else if is_lit(name, "attach-return-type") {
        with_return_type_attached(o)
    } else if is_lit(name, "attach-return-type-decl") {
        with_return_type_decl_attached(o)
    } else {
        o
    }
}

/// What a short option without a value sets (part 1 of 6).
pub fn short_table_0(name: &[char], o: FormatOptions) -> (r: FormatOptions)
    ensures
        r == short_table_spec_0(name@, o),
{
    if is_lit(name, "A1") {
        with_style(StylePreset::Allman, o)
    } else if is_lit(name, "A2") {
        with_style(StylePreset::Java, o)
    } else if is_lit(name, "A3") {
        with_style(StylePreset::Kr, o)
    } else if is_lit(name, "A4") {
        with_style(StylePreset::Stroustrup, o)
    } else if is_lit(name, "A5") {
        with_style(StylePreset::Whitesmith, o)
    } else if is_lit(name, "A6") {
        with_style(StylePreset::Ratliff, o)
    } else if is_lit(name, "A7") {
        with_style(StylePreset::Gnu, o)
    } else if is_lit(name, "A8") {
        with_style(StylePreset::Linux, o)
    } else if is_lit(name, "A9") {
        with_style(StylePreset::Horstmann, o)
    } else if is_lit(name, "A10") {
        with_style(StylePreset::OneTrueBrace, o)
    } else if is_lit(name, "A11") {
        with_style(StylePreset::Pico, o)
    } else if is_lit(name, "A12") {
        with_style(StylePreset::Lisp, o)
    } else {
        short_table_1(name, o)
    }
}

/// What a short option without a value sets (part 2 of 6).
fn short_table_1(name: &[char], o: FormatOptions) -> (r: FormatOptions)
    ensures
        r == short_table_spec_1(name@, o),
{
    if is_lit(name, "A14") {
        with_style(StylePreset::Google, o)
    } else if is_lit(name, "A15") {
        with_style(StylePreset::Vtk, o)
    } else if is_lit(name, "A16") {
        with_style(StylePreset::Mozilla, o)
    } else if is_lit(name, "A17") {
        with_style(StylePreset::WebKit, o)
    } else if is_lit(name, "S") {
        FormatOptions { indent_switches: true, ..o }
    } else if is_lit(name, "K") {
        FormatOptions { indent_cases: true, ..o }
    } else if is_lit(name, "xU") {
        FormatOptions { indent_after_parens: true, ..o }
    } else if is_lit(name, "L") {
        FormatOptions { indent_labels: true, ..o }
    } else if is_lit(name, "C") {
        FormatOptions { indent_classes: true, ..o }
    } else if is_lit(name, "xG") {
        FormatOptions { indent_modifiers: true, ..o }
    } else if is_lit(name, "xW") {
        FormatOptions { indent_preproc_block: true, ..o }
    } else if is_lit(name, "w") {
        FormatOptions { indent_preproc_define: true, ..o }
    } else {
        short_table_2(name, o)
    }
}

/// What a short option without a value sets (part 3 of 6).
fn short_table_2(name: &[char], o: FormatOptions) -> (r: FormatOptions)
    ensures
        r == short_table_spec_2(name@, o),
{
    if is_lit(name, "xw") {
        FormatOptions { indent_preproc_conditional: true, ..o }
    } else if is_lit(name, "N") {
        FormatOptions { indent_namespaces: true, ..o }
    } else if is_lit(name, "Y") {
        FormatOptions { indent_col1_comments: true, ..o }
    } else if is_lit(name, "xe") {
        FormatOptions { delete_empty_lines: true, ..o }
    } else if is_lit(name, "E") {
        FormatOptions { empty_line_fill: true, ..o }
    } else if is_lit(name, "xp") {
        FormatOptions { strip_comment_prefix: true, ..o }
    } else if is_lit(name, "c") {
        FormatOptions { convert_tabs: true, ..o }
    } else if is_lit(name, "xy") {
        FormatOptions { close_templates: true, ..o }
    } else if is_lit(name, "xQ") {
        FormatOptions { pad_method_prefix: true, ..o }
    } else if is_lit(name, "xR") {
        FormatOptions { unpad_method_prefix: true, ..o }
    } else if is_lit(name, "xq") {
        FormatOptions { pad_return_type: true, ..o }
    } else if is_lit(name, "xr") {
        FormatOptions { unpad_return_type: true, ..o }
    } else {
        short_table_3(name, o)
    }
}

/// What a short option without a value sets (part 4 of 6).
fn short_table_3(name: &[char], o: FormatOptions) -> (r: FormatOptions)
    ensures
        r == short_table_spec_3(name@, o),
{
    if is_lit(name, "xS") {
        FormatOptions { pad_param_type: true, ..o }
    } else if is_lit(name, "xs") {
        FormatOptions { unpad_param_type: true, ..o }
    } else if is_lit(name, "xM") {
        FormatOptions { align_method_colon: true, ..o }
    } else if is_lit(name, "xb") {
        FormatOptions { break_one_line_headers: true, ..o }
    } else if is_lit(name, "O") {
        with_one_line_blocks_kept(o)
    } else if is_lit(name, "o") {
        with_one_line_statements_kept(o)
    } else if is_lit(name, "j") {
        with_braces_added(o)
    } else if is_lit(name, "J") {
        with_one_line_braces_added(o)
    } else if is_lit(name, "xj") {
        with_braces_removed(o)
    } else if is_lit(name, "p") {
        FormatOptions { pad_operators: true, ..o }
    } else if is_lit(name, "xg") {
        FormatOptions { pad_commas: true, ..o }
    } else if is_lit(name, "P") {
        FormatOptions { pad_parens_outside: true, pad_parens_inside: true, ..o }
    } else {
        short_table_4(name, o)
    }
}

/// What a short option without a value sets (part 5 of 6).
fn short_table_4(name: &[char], o: FormatOptions) -> (r: FormatOptions)
    ensures
        r == short_table_spec_4(name@, o),
{
    if is_lit(name, "d") {
        FormatOptions { pad_parens_outside: true, ..o }
    } else if is_lit(name, "xd") {
        FormatOptions { pad_first_paren_outside: true, ..o }
    } else if is_lit(name, "D") {
        FormatOptions { pad_parens_inside: true, ..o }
    } else if is_lit(name, "H") {
        FormatOptions { pad_header: true, ..o }
    } else if is_lit(name, "U") {
        FormatOptions { unpad_parens: true, ..o }
    } else if is_lit(name, "xL") {
        FormatOptions { break_after_logical: true, ..o }
    } else if is_lit(name, "f") {
        FormatOptions { break_blocks: true, ..o }
    } else if is_lit(name, "F") {
        FormatOptions { break_blocks: true, break_closing_header_blocks: true, ..o }
    } else if is_lit(name, "y") {
        FormatOptions { break_closing_braces: true, ..o }
    } else if is_lit(name, "xn") {
        FormatOptions { attach_namespace: true, ..o }
    } else if is_lit(name, "xc") {
        FormatOptions { attach_class: true, ..o }
    } else if is_lit(name, "xl") {
        FormatOptions { attach_inline: true, ..o }
    } else {
        short_table_5(name, o)
    }
}

/// What a short option without a value sets (part 6 of 6).
fn short_table_5(name: &[char], o: FormatOptions) -> (r: FormatOptions)
    ensures
        r == short_table_spec_5(name@, o),
{
    if is_lit(name, "xk") {
        FormatOptions { attach_extern_c: true, ..o }
    } else if is_lit(name, "xV") {
        FormatOptions { attach_closing_while: true, ..o }
    } else if is_lit(name, "e") {
        FormatOptions { break_else_ifs: true, ..o }
    } else if is_lit(name, "xB") {
        with_return_type_broken(o)
    } else if is_lit(name, "xD") {
        with_return_type_decl_broken(o)
    } else if is_lit(name, "xf") {
        with_return_type_attached(o)
    } else if is_lit(name, "xh") {
        with_return_type_decl_attached(o)
    } else {
        o
    }
}

} // verus!
