//! Laws that carry across copies of options: settings that agree (apart
//! from the identity of the word-list vectors) stay in agreement under the
//! setters, so what a law states of one value holds of a clone.

use super::options::{
    FormatOptions, StylePreset, apply_style_preset_spec, capture_spec, preset_applied_fields,
    remove_active_style_spec, restore_spec, StyleFields, scalars, set_style_spec,
};
use super::style_laws::lemma_later_style_replaces_earlier;
use vstd::prelude::*;

verus! {

/// Whether `x` and `y` agree on every setting but the word lists.
pub open spec fn same_scalars(x: FormatOptions, y: FormatOptions) -> bool {
    &&& x.indent_width == y.indent_width
    &&& x.tab_width == y.tab_width
    &&& x.indent_style == y.indent_style
    &&& x.brace_style == y.brace_style
    &&& x.add_braces == y.add_braces
    &&& x.add_one_line_braces == y.add_one_line_braces
    &&& x.remove_braces == y.remove_braces
    &&& x.break_one_line_blocks == y.break_one_line_blocks
    &&& x.break_one_line_headers == y.break_one_line_headers
    &&& x.break_one_line_statements == y.break_one_line_statements
    &&& x.pad_operators == y.pad_operators
    &&& x.pad_commas == y.pad_commas
    &&& x.pad_parens_outside == y.pad_parens_outside
    &&& x.pad_first_paren_outside == y.pad_first_paren_outside
    &&& x.pad_parens_inside == y.pad_parens_inside
    &&& x.pad_header == y.pad_header
    &&& x.unpad_parens == y.unpad_parens
    &&& x.pointer_align == y.pointer_align
    &&& x.reference_align == y.reference_align
    &&& x.max_code_length == y.max_code_length
    &&& x.break_after_logical == y.break_after_logical
    &&& x.break_blocks == y.break_blocks
    &&& x.break_closing_header_blocks == y.break_closing_header_blocks
    &&& x.break_closing_braces == y.break_closing_braces
    &&& x.attach_extern_c == y.attach_extern_c
    &&& x.attach_namespace == y.attach_namespace
    &&& x.attach_class == y.attach_class
    &&& x.attach_struct == y.attach_struct
    &&& x.attach_enum == y.attach_enum
    &&& x.attach_inline == y.attach_inline
    &&& x.attach_closing_while == y.attach_closing_while
    &&& x.break_else_ifs == y.break_else_ifs
    &&& x.no_indent_if_after_else == y.no_indent_if_after_else
    &&& x.break_return_type == y.break_return_type
    &&& x.break_return_type_decl == y.break_return_type_decl
    &&& x.attach_return_type == y.attach_return_type
    &&& x.attach_return_type_decl == y.attach_return_type_decl
    &&& x.continuation_indent == y.continuation_indent
    &&& x.max_continuation_indent == y.max_continuation_indent
    &&& x.min_conditional_indent == y.min_conditional_indent
    &&& x.indent_after_parens == y.indent_after_parens
    &&& x.indent_braces == y.indent_braces
    &&& x.indent_blocks == y.indent_blocks
    &&& x.indent_switches == y.indent_switches
    &&& x.indent_cases == y.indent_cases
    &&& x.indent_labels == y.indent_labels
    &&& x.indent_classes == y.indent_classes
    &&& x.indent_modifiers == y.indent_modifiers
    &&& x.indent_preproc_define == y.indent_preproc_define
    &&& x.indent_preproc_conditional == y.indent_preproc_conditional
    &&& x.indent_preproc_block == y.indent_preproc_block
    &&& x.indent_namespaces == y.indent_namespaces
    &&& x.indent_col1_comments == y.indent_col1_comments
    &&& x.delete_empty_lines == y.delete_empty_lines
    &&& x.empty_line_fill == y.empty_line_fill
    &&& x.strip_comment_prefix == y.strip_comment_prefix
    &&& x.convert_tabs == y.convert_tabs
    &&& x.close_templates == y.close_templates
    &&& x.pad_method_prefix == y.pad_method_prefix
    &&& x.unpad_method_prefix == y.unpad_method_prefix
    &&& x.pad_return_type == y.pad_return_type
    &&& x.unpad_return_type == y.unpad_return_type
    &&& x.pad_param_type == y.pad_param_type
    &&& x.unpad_param_type == y.unpad_param_type
    &&& x.align_method_colon == y.align_method_colon
    &&& x.pad_method_colon == y.pad_method_colon
    &&& x.line_between_members == y.line_between_members
    &&& x.mode == y.mode
    &&& x.line_ending == y.line_ending
    &&& x.tab_width_explicit == y.tab_width_explicit
    &&& x.keep_one_line_blocks_explicit == y.keep_one_line_blocks_explicit
    &&& x.style == y.style
}

/// Equal scalar views agree on every setting but the word lists.
pub proof fn lemma_scalars_agree(x: FormatOptions, y: FormatOptions)
    requires
        scalars(x) == scalars(y),
    ensures
        same_scalars(x, y),
{
    assert(scalars(x).indent_width == scalars(y).indent_width);
}

/// Settings that agree give equal scalar views.
pub proof fn lemma_agree_scalars(x: FormatOptions, y: FormatOptions)
    requires
        same_scalars(x, y),
    ensures
        scalars(x) == scalars(y),
{
}

/// Undoing the active preset keeps agreeing settings in agreement.
proof fn lemma_remove_style_keeps_agreement(x: FormatOptions, y: FormatOptions)
    requires
        same_scalars(x, y),
    ensures
        remove_active_style_spec(x).0 == remove_active_style_spec(y).0,
        same_scalars(remove_active_style_spec(x).1, remove_active_style_spec(y).1),
{
    reveal(remove_active_style_spec);
}

proof fn lemma_capture_agrees(x: FormatOptions, y: FormatOptions)
    requires
        same_scalars(x, y),
    ensures
        capture_spec(x) == capture_spec(y),
{
}

proof fn lemma_restore_keeps_agreement(f: StyleFields, x: FormatOptions, y: FormatOptions)
    requires
        same_scalars(x, y),
    ensures
        same_scalars(restore_spec(f, x), restore_spec(f, y)),
{
}

/// Applying a preset keeps agreeing settings in agreement.
proof fn lemma_apply_style_keeps_agreement(s: StylePreset, x: FormatOptions, y: FormatOptions)
    requires
        same_scalars(x, y),
    ensures
        same_scalars(apply_style_preset_spec(s, x), apply_style_preset_spec(s, y)),
{
    lemma_capture_agrees(x, y);
    let f = preset_applied_fields(s, x);
    assert(f == preset_applied_fields(s, y));
    lemma_restore_keeps_agreement(f, x, y);
    reveal(apply_style_preset_spec);
}

/// Setting a style keeps agreeing settings in agreement.
pub proof fn lemma_set_style_keeps_agreement(s: StylePreset, x: FormatOptions, y: FormatOptions)
    requires
        same_scalars(x, y),
    ensures
        same_scalars(set_style_spec(s, x), set_style_spec(s, y)),
{
    lemma_remove_style_keeps_agreement(x, y);
    lemma_apply_style_keeps_agreement(s, remove_active_style_spec(x).1, remove_active_style_spec(y).1);
}

/// A later style replaces an earlier one on a copy too: where `y` is a copy
/// of `x` (its settings agree with `x`'s), setting `first` then `second` on
/// `x` leaves the same settings as setting only `second` on `y`.
pub proof fn lemma_later_style_replaces_earlier_on_copies(
    x: FormatOptions,
    y: FormatOptions,
    first: StylePreset,
    second: StylePreset,
)
    requires
        scalars(x) == scalars(y),
    ensures
        scalars(set_style_spec(second, set_style_spec(first, x))) == scalars(set_style_spec(second, y)),
{
    lemma_later_style_replaces_earlier(x, first, second);
    lemma_scalars_agree(x, y);
    lemma_set_style_keeps_agreement(second, x, y);
    lemma_agree_scalars(set_style_spec(second, set_style_spec(first, x)), set_style_spec(second, y));
}

} // verus!
