//! What a single option does to the settings: the option tables, the
//! actions that a parsed option stands for, and their effect on a
//! `FormatOptions` value and on its word lists.

use super::options::{
    FormatOptions, IndentStyle, LineBetweenMembers, LineEnding, Lists, MinConditionalIndent, Mode,
    ObjCColonPad, PointerAlign, ReferenceAlign, StylePreset, apply_style_preset_spec,
    keep_one_line_blocks_spec, remove_active_style_spec, set_force_tab_width_spec,
    set_indent_style_width_spec, set_style_spec,
};
use vstd::prelude::*;

verus! {

/// Where an option was written: the message for an unknown option names it.
#[derive(Debug, Clone, Copy, PartialEq, Eq, Structural)]
pub enum OptionSource {
    Config,
    CommandLine,
}

/// What one option asks for, once its value has been read and checked.
/// `T` is the text type: `Vec<char>` in running code, `Seq<char>` in contracts.
pub enum Action<T> {
    /// A long option without a value, by name.
    Flag(T),
    /// A short option without a value, by name.
    Short(T),
    /// A style preset.
    Style(StylePreset),
    /// An indentation style with its width.
    Indent(IndentStyle, usize),
    /// Forced tab indentation with a tab width of its own.
    ForceTabWidth(usize),
    ContinuationIndent(usize),
    MaxContinuationIndent(usize),
    MinConditionalIndent(MinConditionalIndent),
    PointerAlign(PointerAlign),
    ReferenceAlign(ReferenceAlign),
    MaxCodeLength(usize),
    /// `break-blocks=all`.
    BreakAllBlocks,
    MethodColonPad(ObjCColonPad),
    /// `line-between-members=all`.
    LineBetweenAllMembers,
    LineEnding(LineEnding),
    Mode(Mode),
    AccessLabel(T),
    ControlHeader(T),
    NonParenHeader(T),
    /// A pair of macros that open and close a block.
    MacroBlock(T, T),
}

impl View for Action<Vec<char>> {
    type V = Action<Seq<char>>;

    open spec fn view(&self) -> Action<Seq<char>> {
        match *self {
            Action::Flag(n) => Action::Flag(n@),
            Action::Short(n) => Action::Short(n@),
            Action::Style(p) => Action::Style(p),
            Action::Indent(s, w) => Action::Indent(s, w),
            Action::ForceTabWidth(w) => Action::ForceTabWidth(w),
            Action::ContinuationIndent(v) => Action::ContinuationIndent(v),
            Action::MaxContinuationIndent(v) => Action::MaxContinuationIndent(v),
            Action::MinConditionalIndent(v) => Action::MinConditionalIndent(v),
            Action::PointerAlign(v) => Action::PointerAlign(v),
            Action::ReferenceAlign(v) => Action::ReferenceAlign(v),
            Action::MaxCodeLength(v) => Action::MaxCodeLength(v),
            Action::BreakAllBlocks => Action::BreakAllBlocks,
            Action::MethodColonPad(v) => Action::MethodColonPad(v),
            Action::LineBetweenAllMembers => Action::LineBetweenAllMembers,
            Action::LineEnding(v) => Action::LineEnding(v),
            Action::Mode(v) => Action::Mode(v),
            Action::AccessLabel(n) => Action::AccessLabel(n@),
            Action::ControlHeader(n) => Action::ControlHeader(n@),
            Action::NonParenHeader(n) => Action::NonParenHeader(n@),
            Action::MacroBlock(b, e) => Action::MacroBlock(b@, e@),
        }
    }
}

/// `o` after `keep-one-line-statements`.
pub open spec fn keep_one_line_statements_spec(o: FormatOptions) -> FormatOptions {
    FormatOptions { break_one_line_statements: false, ..o }
}

/// `o` after `add-braces`: braces are added, and no longer removed.
pub open spec fn add_braces_spec(o: FormatOptions) -> FormatOptions {
    FormatOptions { add_braces: true, remove_braces: false, ..o }
}

/// `o` after `add-one-line-braces`.
pub open spec fn add_one_line_braces_spec(o: FormatOptions) -> FormatOptions {
    FormatOptions {
        add_one_line_braces: true,
        remove_braces: false,
        break_one_line_blocks: false,
        ..o
    }
}

/// `o` after `remove-braces`, which gives way where braces are added.
pub open spec fn remove_braces_spec(o: FormatOptions) -> FormatOptions {
    if !o.add_braces && !o.add_one_line_braces {
        FormatOptions { remove_braces: true, ..o }
    } else {
        o
    }
}

/// `o` after `break-return-type`.
pub open spec fn break_return_type_spec(o: FormatOptions) -> FormatOptions {
    FormatOptions { break_return_type: true, attach_return_type: false, ..o }
}

/// `o` after `break-return-type-decl`.
pub open spec fn break_return_type_decl_spec(o: FormatOptions) -> FormatOptions {
    FormatOptions { break_return_type_decl: true, attach_return_type_decl: false, ..o }
}

/// `o` after `attach-return-type`, which gives way where return types are broken.
pub open spec fn attach_return_type_spec(o: FormatOptions) -> FormatOptions {
    if !o.break_return_type {
        FormatOptions { attach_return_type: true, ..o }
    } else {
        o
    }
}

/// `o` after `attach-return-type-decl`.
pub open spec fn attach_return_type_decl_spec(o: FormatOptions) -> FormatOptions {
    if !o.break_return_type_decl {
        FormatOptions { attach_return_type_decl: true, ..o }
    } else {
        o
    }
}

/// Whether `name` is a long option without a value.
pub open spec fn is_flag_name_spec(name: Seq<char>) -> bool {
    is_flag_name_spec_0(name)
}

/// Whether `name` is a short option without a value.
pub open spec fn is_short_name_spec(name: Seq<char>) -> bool {
    is_short_name_spec_0(name)
}

/// What the action `a` does to the scalar settings of `o` (the word lists
/// are kept apart, see `lists_action_spec`).
pub open spec fn apply_action_spec(a: Action<Seq<char>>, o: FormatOptions) -> FormatOptions {
    match a {
        Action::Flag(n) => flag_table_spec_0(n, o),
        Action::Short(n) => short_table_spec_0(n, o),
        Action::Style(p) => set_style_spec(p, o),
        Action::Indent(s, w) => set_indent_style_width_spec(s, w, o),
        Action::ForceTabWidth(w) => set_force_tab_width_spec(w, o),
        Action::ContinuationIndent(v) => FormatOptions { continuation_indent: v, ..o },
        Action::MaxContinuationIndent(v) => FormatOptions { max_continuation_indent: v, ..o },
        Action::MinConditionalIndent(v) => FormatOptions { min_conditional_indent: v, ..o },
        Action::PointerAlign(v) => FormatOptions { pointer_align: v, ..o },
        Action::ReferenceAlign(v) => FormatOptions { reference_align: v, ..o },
        Action::MaxCodeLength(v) => FormatOptions { max_code_length: Some(v), ..o },
        Action::BreakAllBlocks => FormatOptions {
            break_blocks: true,
            break_closing_header_blocks: true,
            ..o
        },
        Action::MethodColonPad(v) => FormatOptions { pad_method_colon: v, ..o },
        Action::LineBetweenAllMembers => FormatOptions {
            line_between_members: LineBetweenMembers::All,
            ..o
        },
        Action::LineEnding(v) => FormatOptions { line_ending: v, ..o },
        Action::Mode(v) => FormatOptions { mode: v, ..o },
        _ => o,
    }
}

/// The action `a` applied beneath the active preset: the preset is undone,
/// the action applied, and the preset applied again unless the action set one.
pub open spec fn with_style_kept_spec(a: Action<Seq<char>>, o: FormatOptions) -> FormatOptions {
    let (previous, base) = remove_active_style_spec(o);
    let r = apply_action_spec(a, base);
    match previous {
        Some(style) => if r.style is None {
            apply_style_preset_spec(style, r)
        } else {
            r
        },
        None => r,
    }
}

/// The scalar settings after the actions `acts`, in order, starting from `o`.
pub open spec fn options_after(acts: Seq<Action<Seq<char>>>, o: FormatOptions) -> FormatOptions
    decreases acts.len(),
{
    if acts.len() == 0 {
        o
    } else {
        with_style_kept_spec(acts.last(), options_after(acts.drop_last(), o))
    }
}

/// `words` with `w` added at the end unless it is there already.
pub open spec fn add_word_spec(words: Seq<Seq<char>>, w: Seq<char>) -> Seq<Seq<char>> {
    if words.contains(w) {
        words
    } else {
        words.push(w)
    }
}

/// `pairs` with `p` added at the end unless it is there already.
pub open spec fn add_pair_spec(
    pairs: Seq<(Seq<char>, Seq<char>)>,
    p: (Seq<char>, Seq<char>),
) -> Seq<(Seq<char>, Seq<char>)> {
    if pairs.contains(p) {
        pairs
    } else {
        pairs.push(p)
    }
}

/// What the action `a` does to the word lists.
pub open spec fn lists_action_spec(a: Action<Seq<char>>, l: Lists) -> Lists {
    match a {
        Action::AccessLabel(w) => Lists { access_labels: add_word_spec(l.access_labels, w), ..l },
        Action::ControlHeader(w) => Lists {
            control_headers: add_word_spec(l.control_headers, w),
            ..l
        },
        Action::NonParenHeader(w) => Lists {
            control_headers: add_word_spec(l.control_headers, w),
            non_paren_headers: add_word_spec(l.non_paren_headers, w),
            ..l
        },
        Action::MacroBlock(b, e) => Lists { macro_blocks: add_pair_spec(l.macro_blocks, (b, e)), ..l },
        _ => l,
    }
}

/// The word lists after the actions `acts`, in order, starting from `l`.
pub open spec fn lists_after(acts: Seq<Action<Seq<char>>>, l: Lists) -> Lists
    decreases acts.len(),
{
    if acts.len() == 0 {
        l
    } else {
        lists_action_spec(acts.last(), lists_after(acts.drop_last(), l))
    }
}

/// Whether `name` is a flag option. (part 1 of 6 of the names).
pub open spec fn is_flag_name_spec_0(name: Seq<char>) -> bool {
    name == "indent-after-parens"@
        || name == "indent-braces"@
        || name == "indent-blocks"@
        || name == "indent-switches"@
        || name == "indent-cases"@
        || name == "indent-labels"@
        || name == "indent-classes"@
        || name == "indent-modifiers"@
        || name == "indent-preprocessor"@
        || name == "indent-preproc-define"@
        || name == "indent-preproc-cond"@
        || name == "indent-preproc-block"@
        || is_flag_name_spec_1(name)
}

/// Whether `name` is a flag option. (part 2 of 6 of the names).
pub open spec fn is_flag_name_spec_1(name: Seq<char>) -> bool {
    name == "indent-namespaces"@
        || name == "indent-col1-comments"@
        || name == "delete-empty-lines"@
        || name == "fill-empty-lines"@
        || name == "remove-comment-prefix"@
        || name == "convert-tabs"@
        || name == "close-templates"@
        || name == "pad-method-prefix"@
        || name == "unpad-method-prefix"@
        || name == "pad-return-type"@
        || name == "unpad-return-type"@
        || name == "pad-param-type"@
        || is_flag_name_spec_2(name)
}

/// Whether `name` is a flag option. (part 3 of 6 of the names).
pub open spec fn is_flag_name_spec_2(name: Seq<char>) -> bool {
    name == "unpad-param-type"@
        || name == "align-method-colon"@
        || name == "break-one-line-headers"@
        || name == "keep-one-line-blocks"@
        || name == "keep-one-line-statements"@
        || name == "add-braces"@
        || name == "add-brackets"@
        || name == "add-one-line-braces"@
        || name == "add-one-line-brackets"@
        || name == "remove-braces"@
        || name == "remove-brackets"@
        || name == "pad-oper"@
        || is_flag_name_spec_3(name)
}

/// Whether `name` is a flag option. (part 4 of 6 of the names).
pub open spec fn is_flag_name_spec_3(name: Seq<char>) -> bool {
    name == "pad-comma"@
        || name == "pad-paren"@
        || name == "pad-paren-out"@
        || name == "pad-first-paren-out"@
        || name == "pad-paren-in"@
        || name == "pad-header"@
        || name == "unpad-paren"@
        || name == "break-after-logical"@
        || name == "break-blocks"@
        || name == "break-closing-braces"@
        || name == "break-closing-brackets"@
        || name == "attach-namespaces"@
        || is_flag_name_spec_4(name)
}

/// Whether `name` is a flag option. (part 5 of 6 of the names).
pub open spec fn is_flag_name_spec_4(name: Seq<char>) -> bool {
    name == "attach-namespace"@
        || name == "attach-classes"@
        || name == "attach-class"@
        || name == "attach-inlines"@
        || name == "attach-inline"@
        || name == "attach-extern-c"@
        || name == "attach-closing-while"@
        || name == "break-elseifs"@
        || name == "no-indent-if-after-else"@
        || name == "line-between-members"@
        || name == "break-return-type"@
        || name == "break-return-type-decl"@
        || is_flag_name_spec_5(name)
}

/// Whether `name` is a flag option. (part 6 of 6 of the names).
pub open spec fn is_flag_name_spec_5(name: Seq<char>) -> bool {
    name == "attach-return-type"@
        || name == "attach-return-type-decl"@
        || false
}

/// Whether `name` is a short option without a value. (part 1 of 6 of the names).
pub open spec fn is_short_name_spec_0(name: Seq<char>) -> bool {
    name == "A1"@
        || name == "A2"@
        || name == "A3"@
        || name == "A4"@
        || name == "A5"@
        || name == "A6"@
        || name == "A7"@
        || name == "A8"@
        || name == "A9"@
        || name == "A10"@
        || name == "A11"@
        || name == "A12"@
        || is_short_name_spec_1(name)
}

/// Whether `name` is a short option without a value. (part 2 of 6 of the names).
pub open spec fn is_short_name_spec_1(name: Seq<char>) -> bool {
    name == "A14"@
        || name == "A15"@
        || name == "A16"@
        || name == "A17"@
        || name == "S"@
        || name == "K"@
        || name == "xU"@
        || name == "L"@
        || name == "C"@
        || name == "xG"@
        || name == "xW"@
        || name == "w"@
        || is_short_name_spec_2(name)
}

/// Whether `name` is a short option without a value. (part 3 of 6 of the names).
pub open spec fn is_short_name_spec_2(name: Seq<char>) -> bool {
    name == "xw"@
        || name == "N"@
        || name == "Y"@
        || name == "xe"@
        || name == "E"@
        || name == "xp"@
        || name == "c"@
        || name == "xy"@
        || name == "xQ"@
        || name == "xR"@
        || name == "xq"@
        || name == "xr"@
        || is_short_name_spec_3(name)
}

/// Whether `name` is a short option without a value. (part 4 of 6 of the names).
pub open spec fn is_short_name_spec_3(name: Seq<char>) -> bool {
    name == "xS"@
        || name == "xs"@
        || name == "xM"@
        || name == "xb"@
        || name == "O"@
        || name == "o"@
        || name == "j"@
        || name == "J"@
        || name == "xj"@
        || name == "p"@
        || name == "xg"@
        || name == "P"@
        || is_short_name_spec_4(name)
}

/// Whether `name` is a short option without a value. (part 5 of 6 of the names).
pub open spec fn is_short_name_spec_4(name: Seq<char>) -> bool {
    name == "d"@
        || name == "xd"@
        || name == "D"@
        || name == "H"@
        || name == "U"@
        || name == "xL"@
        || name == "f"@
        || name == "F"@
        || name == "y"@
        || name == "xn"@
        || name == "xc"@
        || name == "xl"@
        || is_short_name_spec_5(name)
}

/// Whether `name` is a short option without a value. (part 6 of 6 of the names).
pub open spec fn is_short_name_spec_5(name: Seq<char>) -> bool {
    name == "xk"@
        || name == "xV"@
        || name == "e"@
        || name == "xB"@
        || name == "xD"@
        || name == "xf"@
        || name == "xh"@
        || false
}

/// What a flag option sets (part 1 of 6); other names leave `o` as it is.
pub open spec fn flag_table_spec_0(name: Seq<char>, o: FormatOptions) -> FormatOptions {
    if name == "indent-after-parens"@ {
        FormatOptions { indent_after_parens: true, ..o }
    } else if name == "indent-braces"@ {
        FormatOptions { indent_braces: true, ..o }
    } else if name == "indent-blocks"@ {
        FormatOptions { indent_blocks: true, ..o }
    } else if name == "indent-switches"@ {
        FormatOptions { indent_switches: true, ..o }
    } else if name == "indent-cases"@ {
        FormatOptions { indent_cases: true, ..o }
    } else if name == "indent-labels"@ {
        FormatOptions { indent_labels: true, ..o }
    } else if name == "indent-classes"@ {
        FormatOptions { indent_classes: true, ..o }
    } else if name == "indent-modifiers"@ {
        FormatOptions { indent_modifiers: true, ..o }
    } else if name == "indent-preprocessor"@ || name == "indent-preproc-define"@ {
        FormatOptions { indent_preproc_define: true, ..o }
    } else if name == "indent-preproc-cond"@ {
        FormatOptions { indent_preproc_conditional: true, ..o }
    } else {
        flag_table_spec_1(name, o)
    }
}

/// What a flag option sets (part 2 of 6); other names leave `o` as it is.
pub open spec fn flag_table_spec_1(name: Seq<char>, o: FormatOptions) -> FormatOptions {
    if name == "indent-preproc-block"@ {
        FormatOptions { indent_preproc_block: true, ..o }
    } else if name == "indent-namespaces"@ {
        FormatOptions { indent_namespaces: true, ..o }
    } else if name == "indent-col1-comments"@ {
        FormatOptions { indent_col1_comments: true, ..o }
    } else if name == "delete-empty-lines"@ {
        FormatOptions { delete_empty_lines: true, ..o }
    } else if name == "fill-empty-lines"@ {
        FormatOptions { empty_line_fill: true, ..o }
    } else if name == "remove-comment-prefix"@ {
        FormatOptions { strip_comment_prefix: true, ..o }
    } else if name == "convert-tabs"@ {
        FormatOptions { convert_tabs: true, ..o }
    } else if name == "close-templates"@ {
        FormatOptions { close_templates: true, ..o }
    } else if name == "pad-method-prefix"@ {
        FormatOptions { pad_method_prefix: true, ..o }
    } else if name == "unpad-method-prefix"@ {
        FormatOptions { unpad_method_prefix: true, ..o }
    } else {
        flag_table_spec_2(name, o)
    }
}

/// What a flag option sets (part 3 of 6); other names leave `o` as it is.
pub open spec fn flag_table_spec_2(name: Seq<char>, o: FormatOptions) -> FormatOptions {
    if name == "pad-return-type"@ {
        FormatOptions { pad_return_type: true, ..o }
    } else if name == "unpad-return-type"@ {
        FormatOptions { unpad_return_type: true, ..o }
    } else if name == "pad-param-type"@ {
        FormatOptions { pad_param_type: true, ..o }
    } else if name == "unpad-param-type"@ {
        FormatOptions { unpad_param_type: true, ..o }
    } else if name == "align-method-colon"@ {
        FormatOptions { align_method_colon: true, ..o }
    } else if name == "break-one-line-headers"@ {
        FormatOptions { break_one_line_headers: true, ..o }
    } else if name == "keep-one-line-blocks"@ {
        keep_one_line_blocks_spec(o)
    } else if name == "keep-one-line-statements"@ {
        keep_one_line_statements_spec(o)
    } else if name == "add-braces"@ || name == "add-brackets"@ {
        add_braces_spec(o)
    } else if name == "add-one-line-braces"@ || name == "add-one-line-brackets"@ {
        add_one_line_braces_spec(o)
    } else {
        flag_table_spec_3(name, o)
    }
}

/// What a flag option sets (part 4 of 6); other names leave `o` as it is.
pub open spec fn flag_table_spec_3(name: Seq<char>, o: FormatOptions) -> FormatOptions {
    if name == "remove-braces"@ || name == "remove-brackets"@ {
        remove_braces_spec(o)
    } else if name == "pad-oper"@ {
        FormatOptions { pad_operators: true, ..o }
    } else if name == "pad-comma"@ {
        FormatOptions { pad_commas: true, ..o }
    } else if name == "pad-paren"@ {
        FormatOptions { pad_parens_outside: true, pad_parens_inside: true, ..o }
    } else if name == "pad-paren-out"@ {
        FormatOptions { pad_parens_outside: true, ..o }
    } else if name == "pad-first-paren-out"@ {
        FormatOptions { pad_first_paren_outside: true, ..o }
    } else if name == "pad-paren-in"@ {
        FormatOptions { pad_parens_inside: true, ..o }
    } else if name == "pad-header"@ {
        FormatOptions { pad_header: true, ..o }
    } else if name == "unpad-paren"@ {
        FormatOptions { unpad_parens: true, ..o }
    } else if name == "break-after-logical"@ {
        FormatOptions { break_after_logical: true, ..o }
    } else {
        flag_table_spec_4(name, o)
    }
}

/// What a flag option sets (part 5 of 6); other names leave `o` as it is.
pub open spec fn flag_table_spec_4(name: Seq<char>, o: FormatOptions) -> FormatOptions {
    if name == "break-blocks"@ {
        FormatOptions { break_blocks: true, ..o }
    } else if name == "break-closing-braces"@ || name == "break-closing-brackets"@ {
        FormatOptions { break_closing_braces: true, ..o }
    } else if name == "attach-namespaces"@ || name == "attach-namespace"@ {
        FormatOptions { attach_namespace: true, ..o }
    } else if name == "attach-classes"@ || name == "attach-class"@ {
        FormatOptions { attach_class: true, ..o }
    } else if name == "attach-inlines"@ || name == "attach-inline"@ {
        FormatOptions { attach_inline: true, ..o }
    } else if name == "attach-extern-c"@ {
        FormatOptions { attach_extern_c: true, ..o }
    } else if name == "attach-closing-while"@ {
        FormatOptions { attach_closing_while: true, ..o }
    } else if name == "break-elseifs"@ {
        FormatOptions { break_else_ifs: true, ..o }
    } else if name == "no-indent-if-after-else"@ {
        FormatOptions { no_indent_if_after_else: true, ..o }
    } else if name == "line-between-members"@ {
        FormatOptions { line_between_members: LineBetweenMembers::Members, ..o }
    } else {
        flag_table_spec_5(name, o)
    }
}

/// What a flag option sets (part 6 of 6); other names leave `o` as it is.
pub open spec fn flag_table_spec_5(name: Seq<char>, o: FormatOptions) -> FormatOptions {
    if name == "break-return-type"@ {
        break_return_type_spec(o)
    } else if name == "break-return-type-decl"@ {
        break_return_type_decl_spec(o)
    } else if name == "attach-return-type"@ {
        attach_return_type_spec(o)
    } else if name == "attach-return-type-decl"@ {
        attach_return_type_decl_spec(o)
    } else {
        o
    }
}

/// What a short option without a value sets (part 1 of 6); other names leave `o` as it is.
pub open spec fn short_table_spec_0(name: Seq<char>, o: FormatOptions) -> FormatOptions {
    if name == "A1"@ {
        set_style_spec(StylePreset::Allman, o)
    } else if name == "A2"@ {
        set_style_spec(StylePreset::Java, o)
    } else if name == "A3"@ {
        set_style_spec(StylePreset::Kr, o)
    } else if name == "A4"@ {
        set_style_spec(StylePreset::Stroustrup, o)
    } else if name == "A5"@ {
        set_style_spec(StylePreset::Whitesmith, o)
    } else if name == "A6"@ {
        set_style_spec(StylePreset::Ratliff, o)
    } else if name == "A7"@ {
        set_style_spec(StylePreset::Gnu, o)
    } else if name == "A8"@ {
        set_style_spec(StylePreset::Linux, o)
    } else if name == "A9"@ {
        set_style_spec(StylePreset::Horstmann, o)
    } else if name == "A10"@ {
        set_style_spec(StylePreset::OneTrueBrace, o)
    } else if name == "A11"@ {
        set_style_spec(StylePreset::Pico, o)
    } else if name == "A12"@ {
        set_style_spec(StylePreset::Lisp, o)
    } else {
        short_table_spec_1(name, o)
    }
}

/// What a short option without a value sets (part 2 of 6); other names leave `o` as it is.
pub open spec fn short_table_spec_1(name: Seq<char>, o: FormatOptions) -> FormatOptions {
    if name == "A14"@ {
        set_style_spec(StylePreset::Google, o)
    } else if name == "A15"@ {
        set_style_spec(StylePreset::Vtk, o)
    } else if name == "A16"@ {
        set_style_spec(StylePreset::Mozilla, o)
    } else if name == "A17"@ {
        set_style_spec(StylePreset::WebKit, o)
    } else if name == "S"@ {
        FormatOptions { indent_switches: true, ..o }
    } else if name == "K"@ {
        FormatOptions { indent_cases: true, ..o }
    } else if name == "xU"@ {
        FormatOptions { indent_after_parens: true, ..o }
    } else if name == "L"@ {
        FormatOptions { indent_labels: true, ..o }
    } else if name == "C"@ {
        FormatOptions { indent_classes: true, ..o }
    } else if name == "xG"@ {
        FormatOptions { indent_modifiers: true, ..o }
    } else if name == "xW"@ {
        FormatOptions { indent_preproc_block: true, ..o }
    } else if name == "w"@ {
        FormatOptions { indent_preproc_define: true, ..o }
    } else {
        short_table_spec_2(name, o)
    }
}

/// What a short option without a value sets (part 3 of 6); other names leave `o` as it is.
pub open spec fn short_table_spec_2(name: Seq<char>, o: FormatOptions) -> FormatOptions {
    if name == "xw"@ {
        FormatOptions { indent_preproc_conditional: true, ..o }
    } else if name == "N"@ {
        FormatOptions { indent_namespaces: true, ..o }
    } else if name == "Y"@ {
        FormatOptions { indent_col1_comments: true, ..o }
    } else if name == "xe"@ {
        FormatOptions { delete_empty_lines: true, ..o }
    } else if name == "E"@ {
        FormatOptions { empty_line_fill: true, ..o }
    } else if name == "xp"@ {
        FormatOptions { strip_comment_prefix: true, ..o }
    } else if name == "c"@ {
        FormatOptions { convert_tabs: true, ..o }
    } else if name == "xy"@ {
        FormatOptions { close_templates: true, ..o }
    } else if name == "xQ"@ {
        FormatOptions { pad_method_prefix: true, ..o }
    } else if name == "xR"@ {
        FormatOptions { unpad_method_prefix: true, ..o }
    } else if name == "xq"@ {
        FormatOptions { pad_return_type: true, ..o }
    } else if name == "xr"@ {
        FormatOptions { unpad_return_type: true, ..o }
    } else {
        short_table_spec_3(name, o)
    }
}

/// What a short option without a value sets (part 4 of 6); other names leave `o` as it is.
pub open spec fn short_table_spec_3(name: Seq<char>, o: FormatOptions) -> FormatOptions {
    if name == "xS"@ {
        FormatOptions { pad_param_type: true, ..o }
    } else if name == "xs"@ {
        FormatOptions { unpad_param_type: true, ..o }
    } else if name == "xM"@ {
        FormatOptions { align_method_colon: true, ..o }
    } else if name == "xb"@ {
        FormatOptions { break_one_line_headers: true, ..o }
    } else if name == "O"@ {
        keep_one_line_blocks_spec(o)
    } else if name == "o"@ {
        keep_one_line_statements_spec(o)
    } else if name == "j"@ {
        add_braces_spec(o)
    } else if name == "J"@ {
        add_one_line_braces_spec(o)
    } else if name == "xj"@ {
        remove_braces_spec(o)
    } else if name == "p"@ {
        FormatOptions { pad_operators: true, ..o }
    } else if name == "xg"@ {
        FormatOptions { pad_commas: true, ..o }
    } else if name == "P"@ {
        FormatOptions { pad_parens_outside: true, pad_parens_inside: true, ..o }
    } else {
        short_table_spec_4(name, o)
    }
}

/// What a short option without a value sets (part 5 of 6); other names leave `o` as it is.
pub open spec fn short_table_spec_4(name: Seq<char>, o: FormatOptions) -> FormatOptions {
    if name == "d"@ {
        FormatOptions { pad_parens_outside: true, ..o }
    } else if name == "xd"@ {
        FormatOptions { pad_first_paren_outside: true, ..o }
    } else if name == "D"@ {
        FormatOptions { pad_parens_inside: true, ..o }
    } else if name == "H"@ {
        FormatOptions { pad_header: true, ..o }
    } else if name == "U"@ {
        FormatOptions { unpad_parens: true, ..o }
    } else if name == "xL"@ {
        FormatOptions { break_after_logical: true, ..o }
    } else if name == "f"@ {
        FormatOptions { break_blocks: true, ..o }
    } else if name == "F"@ {
        FormatOptions { break_blocks: true, break_closing_header_blocks: true, ..o }
    } else if name == "y"@ {
        FormatOptions { break_closing_braces: true, ..o }
    } else if name == "xn"@ {
        FormatOptions { attach_namespace: true, ..o }
    } else if name == "xc"@ {
        FormatOptions { attach_class: true, ..o }
    } else if name == "xl"@ {
        FormatOptions { attach_inline: true, ..o }
    } else {
        short_table_spec_5(name, o)
    }
}

/// What a short option without a value sets (part 6 of 6); other names leave `o` as it is.
pub open spec fn short_table_spec_5(name: Seq<char>, o: FormatOptions) -> FormatOptions {
    if name == "xk"@ {
        FormatOptions { attach_extern_c: true, ..o }
    } else if name == "xV"@ {
        FormatOptions { attach_closing_while: true, ..o }
    } else if name == "e"@ {
        FormatOptions { break_else_ifs: true, ..o }
    } else if name == "xB"@ {
        break_return_type_spec(o)
    } else if name == "xD"@ {
        break_return_type_decl_spec(o)
    } else if name == "xf"@ {
        attach_return_type_spec(o)
    } else if name == "xh"@ {
        attach_return_type_decl_spec(o)
    } else {
        o
    }
}

} // verus!
