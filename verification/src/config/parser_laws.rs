//! Laws of the option parser: what holds of every starting point when
//! options are applied one after another.

use super::actions::{
    Action, add_braces_spec, apply_action_spec, attach_return_type_spec, break_return_type_spec,
    flag_table_spec_0, options_after, remove_braces_spec, with_style_kept_spec,
};
use super::options::{
    FormatOptions, StylePreset, apply_style_preset_spec, preset_style_fields,
    remove_active_style_spec,
};
use super::style_laws::lemma_undo_preset;
use vstd::prelude::*;

verus! {

/// The lengths and first three characters of the flag names the laws
/// below look past, enough to tell each apart from the flags they are about.
proof fn lemma_flag_names_known()
    ensures
        "indent-after-parens"@.len() == 19 && "indent-after-parens"@[0] == 'i' && "indent-after-parens"@[1] == 'n' && "indent-after-parens"@[2] == 'd',
        "indent-braces"@.len() == 13 && "indent-braces"@[0] == 'i' && "indent-braces"@[1] == 'n' && "indent-braces"@[2] == 'd',
        "indent-blocks"@.len() == 13 && "indent-blocks"@[0] == 'i' && "indent-blocks"@[1] == 'n' && "indent-blocks"@[2] == 'd',
        "indent-switches"@.len() == 15 && "indent-switches"@[0] == 'i' && "indent-switches"@[1] == 'n' && "indent-switches"@[2] == 'd',
        "indent-cases"@.len() == 12 && "indent-cases"@[0] == 'i' && "indent-cases"@[1] == 'n' && "indent-cases"@[2] == 'd',
        "indent-labels"@.len() == 13 && "indent-labels"@[0] == 'i' && "indent-labels"@[1] == 'n' && "indent-labels"@[2] == 'd',
        "indent-classes"@.len() == 14 && "indent-classes"@[0] == 'i' && "indent-classes"@[1] == 'n' && "indent-classes"@[2] == 'd',
        "indent-modifiers"@.len() == 16 && "indent-modifiers"@[0] == 'i' && "indent-modifiers"@[1] == 'n' && "indent-modifiers"@[2] == 'd',
        "indent-preprocessor"@.len() == 19 && "indent-preprocessor"@[0] == 'i' && "indent-preprocessor"@[1] == 'n' && "indent-preprocessor"@[2] == 'd',
        "indent-preproc-define"@.len() == 21 && "indent-preproc-define"@[0] == 'i' && "indent-preproc-define"@[1] == 'n' && "indent-preproc-define"@[2] == 'd',
        "indent-preproc-cond"@.len() == 19 && "indent-preproc-cond"@[0] == 'i' && "indent-preproc-cond"@[1] == 'n' && "indent-preproc-cond"@[2] == 'd',
        "indent-preproc-block"@.len() == 20 && "indent-preproc-block"@[0] == 'i' && "indent-preproc-block"@[1] == 'n' && "indent-preproc-block"@[2] == 'd',
        "indent-namespaces"@.len() == 17 && "indent-namespaces"@[0] == 'i' && "indent-namespaces"@[1] == 'n' && "indent-namespaces"@[2] == 'd',
        "indent-col1-comments"@.len() == 20 && "indent-col1-comments"@[0] == 'i' && "indent-col1-comments"@[1] == 'n' && "indent-col1-comments"@[2] == 'd',
        "delete-empty-lines"@.len() == 18 && "delete-empty-lines"@[0] == 'd' && "delete-empty-lines"@[1] == 'e' && "delete-empty-lines"@[2] == 'l',
        "fill-empty-lines"@.len() == 16 && "fill-empty-lines"@[0] == 'f' && "fill-empty-lines"@[1] == 'i' && "fill-empty-lines"@[2] == 'l',
        "remove-comment-prefix"@.len() == 21 && "remove-comment-prefix"@[0] == 'r' && "remove-comment-prefix"@[1] == 'e' && "remove-comment-prefix"@[2] == 'm',
        "convert-tabs"@.len() == 12 && "convert-tabs"@[0] == 'c' && "convert-tabs"@[1] == 'o' && "convert-tabs"@[2] == 'n',
        "close-templates"@.len() == 15 && "close-templates"@[0] == 'c' && "close-templates"@[1] == 'l' && "close-templates"@[2] == 'o',
        "pad-method-prefix"@.len() == 17 && "pad-method-prefix"@[0] == 'p' && "pad-method-prefix"@[1] == 'a' && "pad-method-prefix"@[2] == 'd',
        "unpad-method-prefix"@.len() == 19 && "unpad-method-prefix"@[0] == 'u' && "unpad-method-prefix"@[1] == 'n' && "unpad-method-prefix"@[2] == 'p',
        "pad-return-type"@.len() == 15 && "pad-return-type"@[0] == 'p' && "pad-return-type"@[1] == 'a' && "pad-return-type"@[2] == 'd',
        "unpad-return-type"@.len() == 17 && "unpad-return-type"@[0] == 'u' && "unpad-return-type"@[1] == 'n' && "unpad-return-type"@[2] == 'p',
        "pad-param-type"@.len() == 14 && "pad-param-type"@[0] == 'p' && "pad-param-type"@[1] == 'a' && "pad-param-type"@[2] == 'd',
        "unpad-param-type"@.len() == 16 && "unpad-param-type"@[0] == 'u' && "unpad-param-type"@[1] == 'n' && "unpad-param-type"@[2] == 'p',
        "align-method-colon"@.len() == 18 && "align-method-colon"@[0] == 'a' && "align-method-colon"@[1] == 'l' && "align-method-colon"@[2] == 'i',
        "break-one-line-headers"@.len() == 22 && "break-one-line-headers"@[0] == 'b' && "break-one-line-headers"@[1] == 'r' && "break-one-line-headers"@[2] == 'e',
        "keep-one-line-blocks"@.len() == 20 && "keep-one-line-blocks"@[0] == 'k' && "keep-one-line-blocks"@[1] == 'e' && "keep-one-line-blocks"@[2] == 'e',
        "keep-one-line-statements"@.len() == 24 && "keep-one-line-statements"@[0] == 'k' && "keep-one-line-statements"@[1] == 'e' && "keep-one-line-statements"@[2] == 'e',
        "add-braces"@.len() == 10 && "add-braces"@[0] == 'a' && "add-braces"@[1] == 'd' && "add-braces"@[2] == 'd',
        "add-brackets"@.len() == 12 && "add-brackets"@[0] == 'a' && "add-brackets"@[1] == 'd' && "add-brackets"@[2] == 'd',
        "add-one-line-braces"@.len() == 19 && "add-one-line-braces"@[0] == 'a' && "add-one-line-braces"@[1] == 'd' && "add-one-line-braces"@[2] == 'd',
        "add-one-line-brackets"@.len() == 21 && "add-one-line-brackets"@[0] == 'a' && "add-one-line-brackets"@[1] == 'd' && "add-one-line-brackets"@[2] == 'd',
        "remove-braces"@.len() == 13 && "remove-braces"@[0] == 'r' && "remove-braces"@[1] == 'e' && "remove-braces"@[2] == 'm',
        "remove-brackets"@.len() == 15 && "remove-brackets"@[0] == 'r' && "remove-brackets"@[1] == 'e' && "remove-brackets"@[2] == 'm',
        "pad-oper"@.len() == 8 && "pad-oper"@[0] == 'p' && "pad-oper"@[1] == 'a' && "pad-oper"@[2] == 'd',
        "pad-comma"@.len() == 9 && "pad-comma"@[0] == 'p' && "pad-comma"@[1] == 'a' && "pad-comma"@[2] == 'd',
        "pad-paren"@.len() == 9 && "pad-paren"@[0] == 'p' && "pad-paren"@[1] == 'a' && "pad-paren"@[2] == 'd',
        "pad-paren-out"@.len() == 13 && "pad-paren-out"@[0] == 'p' && "pad-paren-out"@[1] == 'a' && "pad-paren-out"@[2] == 'd',
        "pad-first-paren-out"@.len() == 19 && "pad-first-paren-out"@[0] == 'p' && "pad-first-paren-out"@[1] == 'a' && "pad-first-paren-out"@[2] == 'd',
        "pad-paren-in"@.len() == 12 && "pad-paren-in"@[0] == 'p' && "pad-paren-in"@[1] == 'a' && "pad-paren-in"@[2] == 'd',
        "pad-header"@.len() == 10 && "pad-header"@[0] == 'p' && "pad-header"@[1] == 'a' && "pad-header"@[2] == 'd',
        "unpad-paren"@.len() == 11 && "unpad-paren"@[0] == 'u' && "unpad-paren"@[1] == 'n' && "unpad-paren"@[2] == 'p',
        "break-after-logical"@.len() == 19 && "break-after-logical"@[0] == 'b' && "break-after-logical"@[1] == 'r' && "break-after-logical"@[2] == 'e',
        "break-blocks"@.len() == 12 && "break-blocks"@[0] == 'b' && "break-blocks"@[1] == 'r' && "break-blocks"@[2] == 'e',
        "break-closing-braces"@.len() == 20 && "break-closing-braces"@[0] == 'b' && "break-closing-braces"@[1] == 'r' && "break-closing-braces"@[2] == 'e',
        "break-closing-brackets"@.len() == 22 && "break-closing-brackets"@[0] == 'b' && "break-closing-brackets"@[1] == 'r' && "break-closing-brackets"@[2] == 'e',
        "attach-namespaces"@.len() == 17 && "attach-namespaces"@[0] == 'a' && "attach-namespaces"@[1] == 't' && "attach-namespaces"@[2] == 't',
        "attach-namespace"@.len() == 16 && "attach-namespace"@[0] == 'a' && "attach-namespace"@[1] == 't' && "attach-namespace"@[2] == 't',
        "attach-classes"@.len() == 14 && "attach-classes"@[0] == 'a' && "attach-classes"@[1] == 't' && "attach-classes"@[2] == 't',
        "attach-class"@.len() == 12 && "attach-class"@[0] == 'a' && "attach-class"@[1] == 't' && "attach-class"@[2] == 't',
        "attach-inlines"@.len() == 14 && "attach-inlines"@[0] == 'a' && "attach-inlines"@[1] == 't' && "attach-inlines"@[2] == 't',
        "attach-inline"@.len() == 13 && "attach-inline"@[0] == 'a' && "attach-inline"@[1] == 't' && "attach-inline"@[2] == 't',
        "attach-extern-c"@.len() == 15 && "attach-extern-c"@[0] == 'a' && "attach-extern-c"@[1] == 't' && "attach-extern-c"@[2] == 't',
        "attach-closing-while"@.len() == 20 && "attach-closing-while"@[0] == 'a' && "attach-closing-while"@[1] == 't' && "attach-closing-while"@[2] == 't',
        "break-elseifs"@.len() == 13 && "break-elseifs"@[0] == 'b' && "break-elseifs"@[1] == 'r' && "break-elseifs"@[2] == 'e',
        "no-indent-if-after-else"@.len() == 23 && "no-indent-if-after-else"@[0] == 'n' && "no-indent-if-after-else"@[1] == 'o' && "no-indent-if-after-else"@[2] == '-',
        "line-between-members"@.len() == 20 && "line-between-members"@[0] == 'l' && "line-between-members"@[1] == 'i' && "line-between-members"@[2] == 'n',
        "break-return-type"@.len() == 17 && "break-return-type"@[0] == 'b' && "break-return-type"@[1] == 'r' && "break-return-type"@[2] == 'e',
        "break-return-type-decl"@.len() == 22 && "break-return-type-decl"@[0] == 'b' && "break-return-type-decl"@[1] == 'r' && "break-return-type-decl"@[2] == 'e',
        "attach-return-type"@.len() == 18 && "attach-return-type"@[0] == 'a' && "attach-return-type"@[1] == 't' && "attach-return-type"@[2] == 't',
{
    reveal_strlit("indent-after-parens");
    reveal_strlit("indent-braces");
    reveal_strlit("indent-blocks");
    reveal_strlit("indent-switches");
    reveal_strlit("indent-cases");
    reveal_strlit("indent-labels");
    reveal_strlit("indent-classes");
    reveal_strlit("indent-modifiers");
    reveal_strlit("indent-preprocessor");
    reveal_strlit("indent-preproc-define");
    reveal_strlit("indent-preproc-cond");
    reveal_strlit("indent-preproc-block");
    reveal_strlit("indent-namespaces");
    reveal_strlit("indent-col1-comments");
    reveal_strlit("delete-empty-lines");
    reveal_strlit("fill-empty-lines");
    reveal_strlit("remove-comment-prefix");
    reveal_strlit("convert-tabs");
    reveal_strlit("close-templates");
    reveal_strlit("pad-method-prefix");
    reveal_strlit("unpad-method-prefix");
    reveal_strlit("pad-return-type");
    reveal_strlit("unpad-return-type");
    reveal_strlit("pad-param-type");
    reveal_strlit("unpad-param-type");
    reveal_strlit("align-method-colon");
    reveal_strlit("break-one-line-headers");
    reveal_strlit("keep-one-line-blocks");
    reveal_strlit("keep-one-line-statements");
    reveal_strlit("add-braces");
    reveal_strlit("add-brackets");
    reveal_strlit("add-one-line-braces");
    reveal_strlit("add-one-line-brackets");
    reveal_strlit("remove-braces");
    reveal_strlit("remove-brackets");
    reveal_strlit("pad-oper");
    reveal_strlit("pad-comma");
    reveal_strlit("pad-paren");
    reveal_strlit("pad-paren-out");
    reveal_strlit("pad-first-paren-out");
    reveal_strlit("pad-paren-in");
    reveal_strlit("pad-header");
    reveal_strlit("unpad-paren");
    reveal_strlit("break-after-logical");
    reveal_strlit("break-blocks");
    reveal_strlit("break-closing-braces");
    reveal_strlit("break-closing-brackets");
    reveal_strlit("attach-namespaces");
    reveal_strlit("attach-namespace");
    reveal_strlit("attach-classes");
    reveal_strlit("attach-class");
    reveal_strlit("attach-inlines");
    reveal_strlit("attach-inline");
    reveal_strlit("attach-extern-c");
    reveal_strlit("attach-closing-while");
    reveal_strlit("break-elseifs");
    reveal_strlit("no-indent-if-after-else");
    reveal_strlit("line-between-members");
    reveal_strlit("break-return-type");
    reveal_strlit("break-return-type-decl");
    reveal_strlit("attach-return-type");
}

/// The flag `add-braces` does what `add_braces_spec` says.
pub proof fn lemma_flag_add_braces(o: FormatOptions)
    ensures
        flag_table_spec_0("add-braces"@, o) === add_braces_spec(o),
{
    lemma_flag_names_known();
}

/// The flag `remove-braces` does what `remove_braces_spec` says.
pub proof fn lemma_flag_remove_braces(o: FormatOptions)
    ensures
        flag_table_spec_0("remove-braces"@, o) === remove_braces_spec(o),
{
    lemma_flag_names_known();
}

/// The flag `break-return-type` does what `break_return_type_spec` says.
pub proof fn lemma_flag_break_return_type(o: FormatOptions)
    ensures
        flag_table_spec_0("break-return-type"@, o) === break_return_type_spec(o),
{
    lemma_flag_names_known();
}

/// The flag `attach-return-type` does what `attach_return_type_spec` says.
pub proof fn lemma_flag_attach_return_type(o: FormatOptions)
    ensures
        flag_table_spec_0("attach-return-type"@, o) === attach_return_type_spec(o),
{
    lemma_flag_names_known();
}

/// A preset keeps braces that are added, and brace removal then off.
proof fn lemma_preset_keeps_added_braces(style: StylePreset, u: FormatOptions)
    requires
        u.add_braces,
    ensures
        apply_style_preset_spec(style, u).add_braces,
        !apply_style_preset_spec(style, u).remove_braces,
{
    reveal(apply_style_preset_spec);
    reveal(preset_style_fields);
}

/// A preset leaves the return-type settings as they are.
proof fn lemma_preset_keeps_return_types(style: StylePreset, u: FormatOptions)
    ensures
        apply_style_preset_spec(style, u).break_return_type == u.break_return_type,
        apply_style_preset_spec(style, u).attach_return_type == u.attach_return_type,
{
    reveal(apply_style_preset_spec);
}

/// Removing the active preset leaves no preset active.
proof fn lemma_removed_style_is_none(o: FormatOptions)
    ensures
        remove_active_style_spec(o).1.style is None,
        remove_active_style_spec(o).0 is None ==> remove_active_style_spec(o).1 === o,
        o.style is None ==> remove_active_style_spec(o).0 is None,
{
    reveal(remove_active_style_spec);
}

/// The options after two actions, one after the other.
proof fn lemma_two_actions(a: Action<Seq<char>>, b: Action<Seq<char>>, o: FormatOptions)
    ensures
        options_after(seq![a, b], o) === with_style_kept_spec(b, with_style_kept_spec(a, o)),
{
    let s = seq![a, b];
    assert(s.drop_last() =~= seq![a]);
    assert(seq![a].drop_last() =~= Seq::<Action<Seq<char>>>::empty());
    reveal_with_fuel(options_after, 3);
}

/// After `add-braces`, under whatever preset, braces are added and not removed.
proof fn lemma_after_add_braces(o: FormatOptions)
    ensures
        with_style_kept_spec(Action::Flag("add-braces"@), o).add_braces,
        !with_style_kept_spec(Action::Flag("add-braces"@), o).remove_braces,
{
    let (previous, base) = remove_active_style_spec(o);
    lemma_flag_add_braces(base);
    lemma_removed_style_is_none(o);
    let r = add_braces_spec(base);
    assert(apply_action_spec(Action::Flag("add-braces"@), base) === r);
    if let Some(p) = previous {
        lemma_preset_keeps_added_braces(p, r);
    }
}

/// `remove-braces` gives way to braces that are added, under whatever preset.
proof fn lemma_remove_after_add_braces(o: FormatOptions)
    ensures
        ({
            let x = with_style_kept_spec(Action::Flag("add-braces"@), o);
            let y = with_style_kept_spec(Action::Flag("remove-braces"@), x);
            y.add_braces && !y.remove_braces
        }),
{
    let (previous, base) = remove_active_style_spec(o);
    lemma_flag_add_braces(base);
    lemma_removed_style_is_none(o);
    let r = add_braces_spec(base);
    let x = with_style_kept_spec(Action::Flag("add-braces"@), o);
    lemma_flag_remove_braces(r);
    match previous {
        Some(p) => {
            lemma_undo_preset(p, r);
            assert(x === apply_style_preset_spec(p, r));
            assert(remove_active_style_spec(x).1 === r);
            assert(remove_active_style_spec(x).0 == Some(p));
            assert(apply_action_spec(Action::Flag("remove-braces"@), r) === r);
            lemma_preset_keeps_added_braces(p, r);
        },
        None => {
            assert(x === r);
            lemma_removed_style_is_none(x);
        },
    }
}

/// Adding braces overrides removing them, in either order: after both
/// options, braces are added and not removed.
pub proof fn lemma_add_braces_overrides_remove_braces(o: FormatOptions)
    ensures
        options_after(seq![Action::Flag("add-braces"@), Action::Flag("remove-braces"@)], o).add_braces,
        !options_after(seq![Action::Flag("add-braces"@), Action::Flag("remove-braces"@)], o).remove_braces,
        options_after(seq![Action::Flag("remove-braces"@), Action::Flag("add-braces"@)], o).add_braces,
        !options_after(seq![Action::Flag("remove-braces"@), Action::Flag("add-braces"@)], o).remove_braces,
{
    lemma_two_actions(Action::Flag("add-braces"@), Action::Flag("remove-braces"@), o);
    lemma_remove_after_add_braces(o);
    lemma_two_actions(Action::Flag("remove-braces"@), Action::Flag("add-braces"@), o);
    lemma_after_add_braces(with_style_kept_spec(Action::Flag("remove-braces"@), o));
}

/// After `break-return-type`, under whatever preset, return types are broken
/// and not attached.
proof fn lemma_after_break_return_type(o: FormatOptions)
    ensures
        with_style_kept_spec(Action::Flag("break-return-type"@), o).break_return_type,
        !with_style_kept_spec(Action::Flag("break-return-type"@), o).attach_return_type,
{
    let (previous, base) = remove_active_style_spec(o);
    lemma_flag_break_return_type(base);
    lemma_removed_style_is_none(o);
    let r = break_return_type_spec(base);
    if let Some(p) = previous {
        lemma_preset_keeps_return_types(p, r);
    }
}

/// `attach-return-type` gives way to return types that are broken.
proof fn lemma_attach_after_break_return_type(o: FormatOptions)
    ensures
        ({
            let x = with_style_kept_spec(Action::Flag("break-return-type"@), o);
            let y = with_style_kept_spec(Action::Flag("attach-return-type"@), x);
            y.break_return_type && !y.attach_return_type
        }),
{
    let (previous, base) = remove_active_style_spec(o);
    lemma_flag_break_return_type(base);
    lemma_removed_style_is_none(o);
    let r = break_return_type_spec(base);
    let x = with_style_kept_spec(Action::Flag("break-return-type"@), o);
    lemma_flag_attach_return_type(r);
    match previous {
        Some(p) => {
            lemma_undo_preset(p, r);
            assert(x === apply_style_preset_spec(p, r));
            assert(remove_active_style_spec(x).1 === r);
            assert(remove_active_style_spec(x).0 == Some(p));
            assert(apply_action_spec(Action::Flag("attach-return-type"@), r) === r);
            lemma_preset_keeps_return_types(p, r);
        },
        None => {
            assert(x === r);
            lemma_removed_style_is_none(x);
        },
    }
}

/// Breaking return types overrides attaching them, in either order.
pub proof fn lemma_break_return_type_overrides_attach(o: FormatOptions)
    ensures
        options_after(seq![Action::Flag("break-return-type"@), Action::Flag("attach-return-type"@)], o).break_return_type,
        !options_after(seq![Action::Flag("break-return-type"@), Action::Flag("attach-return-type"@)], o).attach_return_type,
        options_after(seq![Action::Flag("attach-return-type"@), Action::Flag("break-return-type"@)], o).break_return_type,
        !options_after(seq![Action::Flag("attach-return-type"@), Action::Flag("break-return-type"@)], o).attach_return_type,
{
    lemma_two_actions(Action::Flag("break-return-type"@), Action::Flag("attach-return-type"@), o);
    lemma_attach_after_break_return_type(o);
    lemma_two_actions(Action::Flag("attach-return-type"@), Action::Flag("break-return-type"@), o);
    lemma_after_break_return_type(with_style_kept_spec(Action::Flag("attach-return-type"@), o));
}

} // verus!
