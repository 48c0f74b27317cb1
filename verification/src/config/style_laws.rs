//! Laws of the style presets: what holds of every sequence of settings.

use super::options::{
    FormatOptions, MinConditionalIndent, StyleFields, StylePreset, apply_style_preset_spec, capture_spec,
    preset_style_fields,
    remove_active_style_spec, set_min_conditional_indent_spec, set_style_spec,
};
use vstd::prelude::*;

verus! {

/// Undoing a preset just applied to options with no preset gives them back.
pub proof fn lemma_undo_preset(style: StylePreset, t: FormatOptions)
    requires
        t.style is None,
    ensures
        remove_active_style_spec(apply_style_preset_spec(style, t)).1 === t,
        remove_active_style_spec(apply_style_preset_spec(style, t)).0 == Some(style),
{
    reveal(remove_active_style_spec);
    reveal(apply_style_preset_spec);
}

/// Setting a style and then another leaves the same options as setting only
/// the second: a later style replaces every default of an earlier one.
pub proof fn lemma_later_style_replaces_earlier(
    o: FormatOptions,
    first: StylePreset,
    second: StylePreset,
)
    ensures
        set_style_spec(second, set_style_spec(first, o)) === set_style_spec(second, o),
{
    reveal(remove_active_style_spec);
    let t = remove_active_style_spec(o).1;
    lemma_undo_preset(first, t);
}

/// Every preset but Linux leaves the minimal conditional indent as it finds it.
proof fn lemma_preset_keeps_conditional_indent(style: StylePreset, u: FormatOptions)
    requires
        style != StylePreset::Linux,
    ensures
        apply_style_preset_spec(style, u).min_conditional_indent == u.min_conditional_indent,
{
    reveal(apply_style_preset_spec);
    reveal(preset_style_fields);
}

/// A conditional indent set explicitly survives a later style that does not
/// set the conditional indent itself (every style but Linux).
pub proof fn lemma_explicit_conditional_indent_survives_style(
    o: FormatOptions,
    value: MinConditionalIndent,
    style: StylePreset,
)
    requires
        style != StylePreset::Linux,
    ensures
        set_style_spec(style, set_min_conditional_indent_spec(value, o)).min_conditional_indent
            == value,
{
    reveal(remove_active_style_spec);
    let (st, base) = remove_active_style_spec(o);
    let updated = FormatOptions { min_conditional_indent: value, ..base };
    let mid = set_min_conditional_indent_spec(value, o);
    if let Some(s) = st {
        lemma_undo_preset(s, updated);
    }
    assert(remove_active_style_spec(mid).1 === updated);
    lemma_preset_keeps_conditional_indent(style, updated);
}

/// The Linux style's conditional indent wins over an explicit one, whichever
/// of the two is set last.
pub proof fn lemma_linux_style_sets_conditional_indent(o: FormatOptions, value: MinConditionalIndent)
    ensures
        set_style_spec(StylePreset::Linux, set_min_conditional_indent_spec(value, o)).min_conditional_indent
            == MinConditionalIndent::OneHalf,
        set_min_conditional_indent_spec(value, set_style_spec(StylePreset::Linux, o)).min_conditional_indent
            == MinConditionalIndent::OneHalf,
{
    reveal(preset_style_fields);
    reveal(apply_style_preset_spec);
    reveal(remove_active_style_spec);
}

/// Setting a style leaves brace removal off wherever braces are added.
pub proof fn lemma_style_never_removes_added_braces(o: FormatOptions, style: StylePreset)
    ensures
        ({
            let r = set_style_spec(style, o);
            (r.add_braces || r.add_one_line_braces) ==> !r.remove_braces
        }),
{
    reveal(apply_style_preset_spec);
}

/// Setting the conditional indent on options without an active preset
/// changes that field and nothing else.
pub proof fn lemma_conditional_indent_alone_changes_only_it(o: FormatOptions, value: MinConditionalIndent)
    requires
        (o.style is None),
    ensures
        set_min_conditional_indent_spec(value, o) === (FormatOptions { min_conditional_indent: value, ..o }),
{
    reveal(remove_active_style_spec);
}

/// Whether two sets of preset-controlled fields agree on everything but the
/// conditional indent.
pub open spec fn agree_but_conditional_indent(a: StyleFields, b: StyleFields) -> bool {
    &&& a.brace_style == b.brace_style
    &&& a.add_braces == b.add_braces
    &&& a.remove_braces == b.remove_braces
    &&& a.break_one_line_blocks == b.break_one_line_blocks
    &&& a.break_one_line_statements == b.break_one_line_statements
    &&& a.break_closing_braces == b.break_closing_braces
    &&& a.attach_namespace == b.attach_namespace
    &&& a.attach_class == b.attach_class
    &&& a.attach_struct == b.attach_struct
    &&& a.attach_enum == b.attach_enum
    &&& a.indent_braces == b.indent_braces
    &&& a.indent_blocks == b.indent_blocks
    &&& a.indent_switches == b.indent_switches
    &&& a.indent_classes == b.indent_classes
    &&& a.indent_modifiers == b.indent_modifiers
}

/// A preset treats the conditional indent on its own: changing it beneath
/// the preset changes no other field the preset sets.
#[verifier::spinoff_prover]
#[verifier::rlimit(80)]
proof fn lemma_preset_fields_conditional_indent(style: StylePreset, c: StyleFields, d: StyleFields)
    requires
        agree_but_conditional_indent(c, d),
    ensures
        agree_but_conditional_indent(preset_style_fields(style, c), preset_style_fields(style, d)),
        style == StylePreset::Linux ==> preset_style_fields(style, d).min_conditional_indent
            == MinConditionalIndent::OneHalf,
        style != StylePreset::Linux ==> preset_style_fields(style, d).min_conditional_indent
            == d.min_conditional_indent,
{
    match style {
        StylePreset::Off => {
            reveal(preset_style_fields);
        },
        StylePreset::Allman => {
            reveal(preset_style_fields);
        },
        StylePreset::Java => {
            reveal(preset_style_fields);
        },
        StylePreset::Kr => {
            reveal(preset_style_fields);
        },
        StylePreset::Linux => {
            reveal(preset_style_fields);
        },
        StylePreset::Mozilla => {
            reveal(preset_style_fields);
        },
        StylePreset::WebKit => {
            reveal(preset_style_fields);
        },
        StylePreset::Stroustrup => {
            reveal(preset_style_fields);
        },
        StylePreset::Whitesmith => {
            reveal(preset_style_fields);
        },
        StylePreset::Vtk => {
            reveal(preset_style_fields);
        },
        StylePreset::Ratliff => {
            reveal(preset_style_fields);
        },
        StylePreset::Gnu => {
            reveal(preset_style_fields);
        },
        StylePreset::Horstmann => {
            reveal(preset_style_fields);
        },
        StylePreset::OneTrueBrace => {
            reveal(preset_style_fields);
        },
        StylePreset::Google => {
            reveal(preset_style_fields);
        },
        StylePreset::Pico => {
            reveal(preset_style_fields);
        },
        StylePreset::Lisp => {
            reveal(preset_style_fields);
        },
    }
}

/// Setting the conditional indent under an active preset keeps every other
/// field and the preset: only the conditional indent changes (to the
/// value set, or Linux's one-and-a-half, which the preset imposes), and the
/// preset's record of the value beneath it.
pub proof fn lemma_conditional_indent_under_preset_changes_only_it(
    t: FormatOptions,
    style: StylePreset,
    value: MinConditionalIndent,
)
    requires
        (t.style is None),
    ensures
        ({
            let o = apply_style_preset_spec(style, t);
            let r = set_min_conditional_indent_spec(value, o);
            &&& FormatOptions { min_conditional_indent: o.min_conditional_indent, style: o.style, ..r } === o
            &&& r.style is Some && r.style->0.preset == style
            &&& r.min_conditional_indent == (if style == StylePreset::Linux {
                MinConditionalIndent::OneHalf
            } else {
                value
            })
        }),
{
    let o = apply_style_preset_spec(style, t);
    lemma_undo_preset(style, t);
    let updated = FormatOptions { min_conditional_indent: value, ..t };
    lemma_preset_fields_conditional_indent(style, capture_spec(t), capture_spec(updated));
    reveal(remove_active_style_spec);
    assert(set_min_conditional_indent_spec(value, o) === apply_style_preset_spec(style, updated));
    reveal(apply_style_preset_spec);
}

} // verus!
