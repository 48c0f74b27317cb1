use vstd::prelude::*;
use vstd::string::*;

verus! {

/// The line ending written into formatted output.
#[derive(Debug, Clone, Copy, PartialEq, Eq, Structural)]
pub enum LineEnding {
    Preserve,
    Lf,
    Crlf,
    Cr,
}

/// How indentation is written.
#[derive(Debug, Clone, Copy, PartialEq, Eq, Structural)]
pub enum IndentStyle {
    Spaces,
    Tabs,
    ForceTabs,
}

/// The minimal extra indent of continued conditions.
#[derive(Debug, Clone, Copy, PartialEq, Eq, Structural)]
pub enum MinConditionalIndent {
    Zero,
    One,
    Two,
    OneHalf,
}

/// Where opening braces go.
#[derive(Debug, Clone, Copy, PartialEq, Eq, Structural)]
pub enum BraceStyle {
    Off,
    Allman,
    Attach,
    OneTrueBrace,
    WebKit,
    Whitesmith,
    Vtk,
    Ratliff,
    Gnu,
    Horstmann,
    Pico,
    Lisp,
}

/// Where a pointer's `*` is attached.
#[derive(Debug, Clone, Copy, PartialEq, Eq, Structural)]
pub enum PointerAlign {
    Off,
    Type,
    Middle,
    Name,
}

/// Where a reference's `&` is attached.
#[derive(Debug, Clone, Copy, PartialEq, Eq, Structural)]
pub enum ReferenceAlign {
    Off,
    Type,
    Middle,
    Name,
    SameAsPointer,
}

/// Padding around Objective-C method colons.
#[derive(Debug, Clone, Copy, PartialEq, Eq, Structural)]
pub enum ObjCColonPad {
    NoChange,
    Off,
    All,
    After,
    Before,
}

/// Blank lines between class members.
#[derive(Debug, Clone, Copy, PartialEq, Eq, Structural)]
pub enum LineBetweenMembers {
    Off,
    Members,
    All,
}

/// The source language mode.
#[derive(Debug, Clone, Copy, PartialEq, Eq, Structural)]
pub enum Mode {
    C,
    ObjC,
}

/// A named bundle of brace and indentation defaults.
#[derive(Debug, Clone, Copy, PartialEq, Eq, Structural)]
pub enum StylePreset {
    Off,
    Allman,
    Java,
    Kr,
    Stroustrup,
    Whitesmith,
    Vtk,
    Ratliff,
    Gnu,
    Linux,
    Horstmann,
    OneTrueBrace,
    Google,
    Mozilla,
    WebKit,
    Pico,
    Lisp,
}

/// The fields a style preset may change, as they stood before it was applied.
#[derive(Debug, Clone, Copy, PartialEq, Eq, Structural)]
pub struct StyleFields {
    pub brace_style: BraceStyle,
    pub add_braces: bool,
    pub remove_braces: bool,
    pub break_one_line_blocks: bool,
    pub break_one_line_statements: bool,
    pub break_closing_braces: bool,
    pub attach_namespace: bool,
    pub attach_class: bool,
    pub attach_struct: bool,
    pub attach_enum: bool,
    pub min_conditional_indent: MinConditionalIndent,
    pub indent_braces: bool,
    pub indent_blocks: bool,
    pub indent_switches: bool,
    pub indent_classes: bool,
    pub indent_modifiers: bool,
}

/// The style preset in force and the values it replaced.
#[derive(Debug, Clone, Copy, PartialEq, Eq, Structural)]
pub struct ActiveStyle {
    pub preset: StylePreset,
    pub base: StyleFields,
}

/// Every setting the formatter reads.
#[derive(Debug, PartialEq, Eq)]
pub struct FormatOptions {
    pub indent_width: usize,
    pub tab_width: usize,
    pub indent_style: IndentStyle,
    pub brace_style: BraceStyle,
    pub add_braces: bool,
    pub add_one_line_braces: bool,
    pub remove_braces: bool,
    pub break_one_line_blocks: bool,
    pub break_one_line_headers: bool,
    pub break_one_line_statements: bool,
    pub pad_operators: bool,
    pub pad_commas: bool,
    pub pad_parens_outside: bool,
    pub pad_first_paren_outside: bool,
    pub pad_parens_inside: bool,
    pub pad_header: bool,
    pub unpad_parens: bool,
    pub pointer_align: PointerAlign,
    pub reference_align: ReferenceAlign,
    pub max_code_length: Option<usize>,
    pub break_after_logical: bool,
    pub break_blocks: bool,
    pub break_closing_header_blocks: bool,
    pub break_closing_braces: bool,
    pub attach_extern_c: bool,
    pub attach_namespace: bool,
    pub attach_class: bool,
    pub attach_struct: bool,
    pub attach_enum: bool,
    pub attach_inline: bool,
    pub attach_closing_while: bool,
    pub break_else_ifs: bool,
    pub no_indent_if_after_else: bool,
    pub break_return_type: bool,
    pub break_return_type_decl: bool,
    pub attach_return_type: bool,
    pub attach_return_type_decl: bool,
    pub continuation_indent: usize,
    pub max_continuation_indent: usize,
    pub min_conditional_indent: MinConditionalIndent,
    pub indent_after_parens: bool,
    pub indent_braces: bool,
    pub indent_blocks: bool,
    pub indent_switches: bool,
    pub indent_cases: bool,
    pub indent_labels: bool,
    pub indent_classes: bool,
    pub indent_modifiers: bool,
    pub indent_preproc_define: bool,
    pub indent_preproc_conditional: bool,
    pub indent_preproc_block: bool,
    pub indent_namespaces: bool,
    pub indent_col1_comments: bool,
    pub delete_empty_lines: bool,
    pub empty_line_fill: bool,
    pub strip_comment_prefix: bool,
    pub convert_tabs: bool,
    pub close_templates: bool,
    pub pad_method_prefix: bool,
    pub unpad_method_prefix: bool,
    pub pad_return_type: bool,
    pub unpad_return_type: bool,
    pub pad_param_type: bool,
    pub unpad_param_type: bool,
    pub align_method_colon: bool,
    pub pad_method_colon: ObjCColonPad,
    pub line_between_members: LineBetweenMembers,
    pub mode: Mode,
    pub line_ending: LineEnding,
    pub access_labels: Vec<String>,
    pub macro_blocks: Vec<(String, String)>,
    pub control_headers: Vec<String>,
    pub non_paren_headers: Vec<String>,
    pub tab_width_explicit: bool,
    pub keep_one_line_blocks_explicit: bool,
    pub style: Option<ActiveStyle>,
}

/// The word lists of a `FormatOptions`, each as a sequence of character sequences.
pub struct Lists {
    pub access_labels: Seq<Seq<char>>,
    pub macro_blocks: Seq<(Seq<char>, Seq<char>)>,
    pub control_headers: Seq<Seq<char>>,
    pub non_paren_headers: Seq<Seq<char>>,
}

pub open spec fn strings_view(v: Seq<String>) -> Seq<Seq<char>> {
    v.map_values(|s: String| s@)
}

pub open spec fn pairs_view(v: Seq<(String, String)>) -> Seq<(Seq<char>, Seq<char>)> {
    v.map_values(|p: (String, String)| (p.0@, p.1@))
}

/// `o` with its word lists replaced by fixed values, so that two of these are
/// equal exactly when all the other settings are.
pub open spec fn scalars(o: FormatOptions) -> FormatOptions {
    FormatOptions {
        access_labels: arbitrary(),
        macro_blocks: arbitrary(),
        control_headers: arbitrary(),
        non_paren_headers: arbitrary(),
        ..o
    }
}

/// The word lists of `o`.
pub open spec fn lists(o: FormatOptions) -> Lists {
    Lists {
        access_labels: strings_view(o.access_labels@),
        macro_blocks: pairs_view(o.macro_blocks@),
        control_headers: strings_view(o.control_headers@),
        non_paren_headers: strings_view(o.non_paren_headers@),
    }
}

/// The scalar settings of `FormatOptions::default()`.
pub open spec fn default_scalars() -> FormatOptions {
    FormatOptions {
        indent_width: 4,
        tab_width: 4,
        indent_style: IndentStyle::Spaces,
        brace_style: BraceStyle::Off,
        add_braces: false,
        add_one_line_braces: false,
        remove_braces: false,
        break_one_line_blocks: true,
        break_one_line_headers: false,
        break_one_line_statements: true,
        pad_operators: false,
        pad_commas: false,
        pad_parens_outside: false,
        pad_first_paren_outside: false,
        pad_parens_inside: false,
        pad_header: false,
        unpad_parens: false,
        pointer_align: PointerAlign::Off,
        reference_align: ReferenceAlign::SameAsPointer,
        max_code_length: None,
        break_after_logical: false,
        break_blocks: false,
        break_closing_header_blocks: false,
        break_closing_braces: false,
        attach_extern_c: false,
        attach_namespace: false,
        attach_class: false,
        attach_struct: true,
        attach_enum: true,
        attach_inline: false,
        attach_closing_while: false,
        break_else_ifs: false,
        no_indent_if_after_else: false,
        break_return_type: false,
        break_return_type_decl: false,
        attach_return_type: false,
        attach_return_type_decl: false,
        continuation_indent: 1,
        max_continuation_indent: 40,
        min_conditional_indent: MinConditionalIndent::Two,
        indent_after_parens: false,
        indent_braces: false,
        indent_blocks: false,
        indent_switches: false,
        indent_cases: false,
        indent_labels: false,
        indent_classes: false,
        indent_modifiers: false,
        indent_preproc_define: false,
        indent_preproc_conditional: false,
        indent_preproc_block: false,
        indent_namespaces: false,
        indent_col1_comments: false,
        delete_empty_lines: false,
        empty_line_fill: false,
        strip_comment_prefix: false,
        convert_tabs: false,
        close_templates: false,
        pad_method_prefix: false,
        unpad_method_prefix: false,
        pad_return_type: false,
        unpad_return_type: false,
        pad_param_type: false,
        unpad_param_type: false,
        align_method_colon: false,
        pad_method_colon: ObjCColonPad::NoChange,
        line_between_members: LineBetweenMembers::Off,
        mode: Mode::C,
        line_ending: LineEnding::Preserve,
        access_labels: arbitrary(),
        macro_blocks: arbitrary(),
        control_headers: arbitrary(),
        non_paren_headers: arbitrary(),
        tab_width_explicit: false,
        keep_one_line_blocks_explicit: false,
        style: None,
    }
}

/// The word lists of `FormatOptions::default()`.
pub open spec fn default_lists() -> Lists {
    Lists {
        access_labels: seq![],
        macro_blocks: seq![
            ("wxBEGIN_EVENT_TABLE"@, "wxEND_EVENT_TABLE"@),
            ("BEGIN_MESSAGE_MAP"@, "END_MESSAGE_MAP"@),
        ],
        control_headers: seq![],
        non_paren_headers: seq![],
    }
}

/// The preset-controlled fields of `o`.
pub open spec fn capture_spec(o: FormatOptions) -> StyleFields {
    StyleFields {
        brace_style: o.brace_style,
        add_braces: o.add_braces,
        remove_braces: o.remove_braces,
        break_one_line_blocks: o.break_one_line_blocks,
        break_one_line_statements: o.break_one_line_statements,
        break_closing_braces: o.break_closing_braces,
        attach_namespace: o.attach_namespace,
        attach_class: o.attach_class,
        attach_struct: o.attach_struct,
        attach_enum: o.attach_enum,
        min_conditional_indent: o.min_conditional_indent,
        indent_braces: o.indent_braces,
        indent_blocks: o.indent_blocks,
        indent_switches: o.indent_switches,
        indent_classes: o.indent_classes,
        indent_modifiers: o.indent_modifiers,
    }
}

/// `o` with the preset-controlled fields set back to `b`.
pub open spec fn restore_spec(b: StyleFields, o: FormatOptions) -> FormatOptions {
    FormatOptions {
        brace_style: b.brace_style,
        add_braces: b.add_braces,
        remove_braces: b.remove_braces,
        break_one_line_blocks: b.break_one_line_blocks,
        break_one_line_statements: b.break_one_line_statements,
        break_closing_braces: b.break_closing_braces,
        attach_namespace: b.attach_namespace,
        attach_class: b.attach_class,
        attach_struct: b.attach_struct,
        attach_enum: b.attach_enum,
        min_conditional_indent: b.min_conditional_indent,
        indent_braces: b.indent_braces,
        indent_blocks: b.indent_blocks,
        indent_switches: b.indent_switches,
        indent_classes: b.indent_classes,
        indent_modifiers: b.indent_modifiers,
        ..o
    }
}

/// The preset-controlled fields after the preset `style` sets its values over `o`.
#[verifier::opaque]
pub open spec fn preset_style_fields(style: StylePreset, o: StyleFields) -> StyleFields {
    match style {
        StylePreset::Off => StyleFields { brace_style: BraceStyle::Off, ..o },
        StylePreset::Allman => StyleFields { brace_style: BraceStyle::Allman, ..o },
        StylePreset::Java => StyleFields { brace_style: BraceStyle::Attach, ..o },
        StylePreset::Kr => StyleFields {
            brace_style: BraceStyle::OneTrueBrace,
            attach_struct: true,
            attach_enum: true,
            ..o
        },
        StylePreset::Linux => StyleFields {
            brace_style: BraceStyle::OneTrueBrace,
            attach_struct: true,
            attach_enum: true,
            min_conditional_indent: MinConditionalIndent::OneHalf,
            ..o
        },
        StylePreset::Mozilla => StyleFields {
            brace_style: BraceStyle::OneTrueBrace,
            attach_namespace: true,
            attach_struct: false,
            attach_enum: false,
            ..o
        },
        StylePreset::WebKit => StyleFields { brace_style: BraceStyle::WebKit, ..o },
        StylePreset::Stroustrup => StyleFields {
            brace_style: BraceStyle::OneTrueBrace,
            break_closing_braces: true,
            attach_namespace: true,
            attach_class: true,
            attach_struct: true,
            attach_enum: true,
            ..o
        },
        StylePreset::Whitesmith => StyleFields {
            brace_style: BraceStyle::Whitesmith,
            indent_braces: true,
            indent_classes: true,
            indent_switches: true,
            ..o
        },
        StylePreset::Vtk => StyleFields { brace_style: BraceStyle::Vtk, ..o },
        StylePreset::Ratliff => StyleFields {
            brace_style: BraceStyle::Ratliff,
            indent_braces: true,
            indent_classes: true,
            ..o
        },
        StylePreset::Gnu => StyleFields { brace_style: BraceStyle::Gnu, indent_blocks: true, ..o },
        StylePreset::Horstmann => StyleFields {
            brace_style: BraceStyle::Horstmann,
            indent_switches: true,
            ..o
        },
        StylePreset::OneTrueBrace => StyleFields {
            brace_style: BraceStyle::OneTrueBrace,
            add_braces: true,
            remove_braces: false,
            attach_struct: true,
            attach_enum: true,
            ..o
        },
        StylePreset::Google => StyleFields {
            brace_style: BraceStyle::Attach,
            indent_modifiers: true,
            ..o
        },
        StylePreset::Pico => StyleFields {
            brace_style: BraceStyle::Pico,
            break_one_line_blocks: false,
            break_one_line_statements: false,
            indent_switches: true,
            ..o
        },
        StylePreset::Lisp => StyleFields {
            brace_style: BraceStyle::Lisp,
            break_one_line_statements: false,
            ..o
        },
    }
}

/// `o` after the preset `style` is applied on top of it: the preset's fields,
/// brace removal switched off where braces are added, and the style recorded
/// together with the values it replaced.
#[verifier::opaque]
pub open spec fn apply_style_preset_spec(style: StylePreset, o: FormatOptions) -> FormatOptions {
    FormatOptions {
        style: Some(ActiveStyle { preset: style, base: capture_spec(o) }),
        ..restore_spec(preset_applied_fields(style, o), o)
    }
}

/// The preset-controlled fields once `style` is applied over `o`, with brace
/// removal switched off where braces are added.
pub open spec fn preset_applied_fields(style: StylePreset, o: FormatOptions) -> StyleFields {
    let p = preset_style_fields(style, capture_spec(o));
    let remove_braces = if p.add_braces || o.add_one_line_braces {
        false
    } else {
        p.remove_braces
    };
    StyleFields { remove_braces, ..p }
}

/// The active preset (if any) and `o` with that preset's changes undone.
#[verifier::opaque]
pub open spec fn remove_active_style_spec(o: FormatOptions) -> (Option<StylePreset>, FormatOptions) {
    match o.style {
        None => (None, o),
        Some(active) => (
            Some(active.preset),
            FormatOptions { style: None, ..restore_spec(active.base, o) },
        ),
    }
}

/// `o` after `set_style(style)`: any earlier preset undone, then `style` applied.
pub open spec fn set_style_spec(style: StylePreset, o: FormatOptions) -> FormatOptions {
    apply_style_preset_spec(style, remove_active_style_spec(o).1)
}

/// `o` after `set_min_conditional_indent(value)`: the value is set beneath the
/// active preset, which is then applied again.
pub open spec fn set_min_conditional_indent_spec(
    value: MinConditionalIndent,
    o: FormatOptions,
) -> FormatOptions {
    let (style, base) = remove_active_style_spec(o);
    let updated = FormatOptions { min_conditional_indent: value, ..base };
    match style {
        Some(s) => apply_style_preset_spec(s, updated),
        None => updated,
    }
}

/// `o` after the indentation style and width are set together.
pub open spec fn set_indent_style_width_spec(
    style: IndentStyle,
    width: usize,
    o: FormatOptions,
) -> FormatOptions {
    if style == IndentStyle::ForceTabs {
        set_indent_width_spec(width, FormatOptions { indent_style: style, ..o })
    } else {
        FormatOptions {
            indent_style: style,
            indent_width: width,
            tab_width: width,
            tab_width_explicit: false,
            ..o
        }
    }
}

/// `o` after the indent width is set; the tab width follows unless it was set on its own.
pub open spec fn set_indent_width_spec(width: usize, o: FormatOptions) -> FormatOptions {
    FormatOptions {
        indent_width: width,
        tab_width: if o.tab_width_explicit {
            o.tab_width
        } else {
            width
        },
        ..o
    }
}

/// `o` after the tab width of forced tab indentation is set on its own.
pub open spec fn set_force_tab_width_spec(width: usize, o: FormatOptions) -> FormatOptions {
    FormatOptions {
        indent_style: IndentStyle::ForceTabs,
        tab_width: width,
        tab_width_explicit: true,
        ..o
    }
}

/// `o` after one-line blocks are kept on explicit request.
pub open spec fn keep_one_line_blocks_spec(o: FormatOptions) -> FormatOptions {
    FormatOptions { break_one_line_blocks: false, keep_one_line_blocks_explicit: true, ..o }
}

/// The line break written for a line-ending setting.
pub open spec fn line_break_spec(e: LineEnding) -> Seq<char> {
    match e {
        LineEnding::Preserve | LineEnding::Lf => seq!['\n'],
        LineEnding::Crlf => seq!['\r', '\n'],
        LineEnding::Cr => seq!['\r'],
    }
}

/// `n` copies of `c`.
pub open spec fn repeat_char(c: char, n: nat) -> Seq<char> {
    Seq::new(n, |i: int| c)
}

/// `tabs` tab characters followed by `spaces` spaces.
pub open spec fn tabs_then_spaces(tabs: nat, spaces: nat) -> Seq<char> {
    repeat_char('\t', tabs) + repeat_char(' ', spaces)
}

/// The indentation written for a nesting level.
pub open spec fn indent_prefix_spec(o: FormatOptions, level: nat) -> Seq<char> {
    let columns: nat = (level * o.indent_width) as nat;
    match o.indent_style {
        IndentStyle::Spaces => repeat_char(' ', columns),
        IndentStyle::Tabs => repeat_char('\t', level),
        IndentStyle::ForceTabs => {
            let tab_width: nat = if o.tab_width == 0 {
                1
            } else {
                o.tab_width as nat
            };
            tabs_then_spaces(columns / tab_width, columns % tab_width)
        },
    }
}

/// The indentation written for a continuation line of `total_columns` columns
/// at nesting level `structural_level`.
pub open spec fn continuation_indent_prefix_spec(
    o: FormatOptions,
    structural_level: nat,
    total_columns: nat,
) -> Seq<char> {
    match o.indent_style {
        IndentStyle::Spaces => repeat_char(' ', total_columns),
        IndentStyle::ForceTabs => {
            let tab_width: nat = if o.tab_width == 0 {
                1
            } else {
                o.tab_width as nat
            };
            tabs_then_spaces(total_columns / tab_width, total_columns % tab_width)
        },
        IndentStyle::Tabs => {
            let width: nat = if o.indent_width == 0 {
                1
            } else {
                o.indent_width as nat
            };
            let tabs: nat = if structural_level <= total_columns / width {
                structural_level
            } else {
                total_columns / width
            };
            tabs_then_spaces(tabs, (total_columns - tabs * width) as nat)
        },
    }
}

} // verus!
