//! The setters of `FormatOptions` and the constructors of its values.

use super::options::{ActiveStyle, BraceStyle, FormatOptions, IndentStyle, LineEnding, MinConditionalIndent, StyleFields, StylePreset, apply_style_preset_spec, capture_spec, continuation_indent_prefix_spec, indent_prefix_spec, keep_one_line_blocks_spec, line_break_spec, preset_applied_fields, preset_style_fields, remove_active_style_spec, repeat_char, restore_spec, scalars, set_force_tab_width_spec, set_indent_style_width_spec, set_indent_width_spec, set_min_conditional_indent_spec, set_style_spec, tabs_then_spaces};
use vstd::prelude::*;
use vstd::string::*;

verus! {

impl StyleFields {
    pub fn capture(options: &FormatOptions) -> (r: Self)
        ensures
            r == capture_spec(*options),
    {
        Self {
            brace_style: options.brace_style,
            add_braces: options.add_braces,
            remove_braces: options.remove_braces,
            break_one_line_blocks: options.break_one_line_blocks,
            break_one_line_statements: options.break_one_line_statements,
            break_closing_braces: options.break_closing_braces,
            attach_namespace: options.attach_namespace,
            attach_class: options.attach_class,
            attach_struct: options.attach_struct,
            attach_enum: options.attach_enum,
            min_conditional_indent: options.min_conditional_indent,
            indent_braces: options.indent_braces,
            indent_blocks: options.indent_blocks,
            indent_switches: options.indent_switches,
            indent_classes: options.indent_classes,
            indent_modifiers: options.indent_modifiers,
        }
    }

    pub fn restore(self, options: FormatOptions) -> (r: FormatOptions)
        ensures
            r == restore_spec(self, options),
    {
        FormatOptions {
            brace_style: self.brace_style,
            add_braces: self.add_braces,
            remove_braces: self.remove_braces,
            break_one_line_blocks: self.break_one_line_blocks,
            break_one_line_statements: self.break_one_line_statements,
            break_closing_braces: self.break_closing_braces,
            attach_namespace: self.attach_namespace,
            attach_class: self.attach_class,
            attach_struct: self.attach_struct,
            attach_enum: self.attach_enum,
            min_conditional_indent: self.min_conditional_indent,
            indent_braces: self.indent_braces,
            indent_blocks: self.indent_blocks,
            indent_switches: self.indent_switches,
            indent_classes: self.indent_classes,
            indent_modifiers: self.indent_modifiers,
            ..options
        }
    }
}

/// `n` copies of `c`, as a vector.
pub fn repeat_vec(c: char, n: usize) -> (r: Vec<char>)
    ensures
        r@ == repeat_char(c, n as nat),
{
    let mut r: Vec<char> = Vec::new();
    let mut i: usize = 0;
    while i < n
        invariant
            i <= n,
            r@ == repeat_char(c, i as nat),
        decreases n - i,
    {
        r.push(c);
        i = i + 1;
        assert(r@ =~= repeat_char(c, i as nat));
    }
    r
}

/// `tabs` tab characters followed by `spaces` spaces, as a string.
fn tabs_and_spaces(tabs: usize, spaces: usize) -> (r: String)
    ensures
        r@ == tabs_then_spaces(tabs as nat, spaces as nat),
{
    let mut v = repeat_vec('\t', tabs);
    let s = repeat_vec(' ', spaces);
    crate::text::push_all(&mut v, s.as_slice());
    crate::text::string_of(v.as_slice())
}

/// The preset-controlled fields after `style` sets its values over `o`.
fn preset_fields_of(style: StylePreset, o: StyleFields) -> (r: StyleFields)
    ensures
        r == preset_style_fields(style, o),
{
    reveal(preset_style_fields);
    match style {
        StylePreset::Off => StyleFields { brace_style: BraceStyle::Off, ..o },
        StylePreset::Allman => StyleFields { brace_style: BraceStyle::Allman, ..o },
        StylePreset::Java => StyleFields { brace_style: BraceStyle::Attach, ..o },
        StylePreset::Kr => StyleFields {
            brace_style: BraceStyle::OneTrueBrace,
            attach_struct: true,
            attach_enum: true,
            ..o
        },
        StylePreset::Linux => StyleFields {
            brace_style: BraceStyle::OneTrueBrace,
            attach_struct: true,
            attach_enum: true,
            min_conditional_indent: MinConditionalIndent::OneHalf,
            ..o
        },
        StylePreset::Mozilla => StyleFields {
            brace_style: BraceStyle::OneTrueBrace,
            attach_namespace: true,
            attach_struct: false,
            attach_enum: false,
            ..o
        },
        StylePreset::WebKit => StyleFields { brace_style: BraceStyle::WebKit, ..o },
        StylePreset::Stroustrup => StyleFields {
            brace_style: BraceStyle::OneTrueBrace,
            break_closing_braces: true,
            attach_namespace: true,
            attach_class: true,
            attach_struct: true,
            attach_enum: true,
            ..o
        },
        StylePreset::Whitesmith => StyleFields {
            brace_style: BraceStyle::Whitesmith,
            indent_braces: true,
            indent_classes: true,
            indent_switches: true,
            ..o
        },
        StylePreset::Vtk => StyleFields { brace_style: BraceStyle::Vtk, ..o },
        StylePreset::Ratliff => StyleFields {
            brace_style: BraceStyle::Ratliff,
            indent_braces: true,
            indent_classes: true,
            ..o
        },
        StylePreset::Gnu => StyleFields { brace_style: BraceStyle::Gnu, indent_blocks: true, ..o },
        StylePreset::Horstmann => StyleFields {
            brace_style: BraceStyle::Horstmann,
            indent_switches: true,
            ..o
        },
        StylePreset::OneTrueBrace => StyleFields {
            brace_style: BraceStyle::OneTrueBrace,
            add_braces: true,
            remove_braces: false,
            attach_struct: true,
            attach_enum: true,
            ..o
        },
        StylePreset::Google => StyleFields {
            brace_style: BraceStyle::Attach,
            indent_modifiers: true,
            ..o
        },
        StylePreset::Pico => StyleFields {
            brace_style: BraceStyle::Pico,
            break_one_line_blocks: false,
            break_one_line_statements: false,
            indent_switches: true,
            ..o
        },
        StylePreset::Lisp => StyleFields {
            brace_style: BraceStyle::Lisp,
            break_one_line_statements: false,
            ..o
        },
    }
}

/// The preset-controlled fields once `style` is applied over `o`.
fn applied_fields(style: StylePreset, o: &FormatOptions) -> (r: StyleFields)
    ensures
        r == preset_applied_fields(style, *o),
{
    let p = preset_fields_of(style, StyleFields::capture(o));
    let remove_braces = if p.add_braces || o.add_one_line_braces {
        false
    } else {
        p.remove_braces
    };
    StyleFields { remove_braces, ..p }
}

/// `o` with the preset `style` applied on top of it.
pub(crate) fn with_style_preset(style: StylePreset, o: FormatOptions) -> (r: FormatOptions)
    ensures
        r == apply_style_preset_spec(style, o),
{
    reveal(apply_style_preset_spec);
    let base = StyleFields::capture(&o);
    let fields = applied_fields(style, &o);
    let restored = fields.restore(o);
    FormatOptions { style: Some(ActiveStyle { preset: style, base }), ..restored }
}

/// The active preset of `o` (if any) and `o` with that preset's changes undone.
pub(crate) fn without_active_style(o: FormatOptions) -> (r: (Option<StylePreset>, FormatOptions))
    ensures
        r == remove_active_style_spec(o),
{
    reveal(remove_active_style_spec);
    match o.style {
        None => (None, o),
        Some(active) => (Some(active.preset), FormatOptions { style: None, ..active.base.restore(o) }),
    }
}

/// `o` after `set_style(style)`.
pub fn with_style(style: StylePreset, o: FormatOptions) -> (r: FormatOptions)
    ensures
        r == set_style_spec(style, o),
{
    let (_, base) = without_active_style(o);
    with_style_preset(style, base)
}

/// `o` after `set_min_conditional_indent(value)`.
fn with_min_conditional_indent(value: MinConditionalIndent, o: FormatOptions) -> (r: FormatOptions)
    ensures
        r == set_min_conditional_indent_spec(value, o),
{
    let (style, base) = without_active_style(o);
    let updated = FormatOptions { min_conditional_indent: value, ..base };
    match style {
        Some(s) => with_style_preset(s, updated),
        None => updated,
    }
}

/// `o` after the indent width is set.
pub fn with_indent_width(width: usize, o: FormatOptions) -> (r: FormatOptions)
    ensures
        r == set_indent_width_spec(width, o),
{
    let tab_width = if o.tab_width_explicit {
        o.tab_width
    } else {
        width
    };
    FormatOptions { indent_width: width, tab_width, ..o }
}

/// `o` after the indentation style and width are set together.
#[verifier::spinoff_prover]
#[verifier::rlimit(30)]
pub fn with_indent_style_width(style: IndentStyle, width: usize, o: FormatOptions) -> (r:
    FormatOptions)
    ensures
        r == set_indent_style_width_spec(style, width, o),
{
    if style == IndentStyle::ForceTabs {
        let t = FormatOptions { indent_style: style, ..o };
        with_indent_width(width, t)
    } else {
        FormatOptions {
            indent_style: style,
            indent_width: width,
            tab_width: width,
            tab_width_explicit: false,
            ..o
        }
    }
}

/// `o` after the forced-tab width is set on its own.
pub fn with_force_tab_width(width: usize, o: FormatOptions) -> (r: FormatOptions)
    ensures
        r == set_force_tab_width_spec(width, o),
{
    FormatOptions {
        indent_style: IndentStyle::ForceTabs,
        tab_width: width,
        tab_width_explicit: true,
        ..o
    }
}

/// `o` after one-line blocks are kept on explicit request.
pub fn with_one_line_blocks_kept(o: FormatOptions) -> (r: FormatOptions)
    ensures
        r == keep_one_line_blocks_spec(o),
{
    FormatOptions { break_one_line_blocks: false, keep_one_line_blocks_explicit: true, ..o }
}

/// Moves the value out of `o`, leaving the defaults behind.
pub(crate) fn take_options(o: &mut FormatOptions) -> (r: FormatOptions)
    ensures
        r == *old(o),
{
    let mut v = FormatOptions::default();
    std::mem::swap(o, &mut v);
    v
}

impl FormatOptions {
    /// Replaces the active preset (if any) by `style`: the earlier preset's
    /// changes are undone first, so only `style`'s defaults remain.
    pub fn set_style(&mut self, style: StylePreset)
        ensures
            *final(self) == set_style_spec(style, *old(self)),
    {
        let o = take_options(self);
        *self = with_style(style, o);
    }

    /// Sets the minimal conditional indent beneath the active preset, which
    /// keeps the last word where it sets this value itself.
    pub fn set_min_conditional_indent(&mut self, value: MinConditionalIndent)
        ensures
            *final(self) == set_min_conditional_indent_spec(value, *old(self)),
    {
        let o = take_options(self);
        *self = with_min_conditional_indent(value, o);
    }

    /// Undoes the active preset's changes and returns it.
    pub fn remove_active_style(&mut self) -> (r: Option<StylePreset>)
        ensures
            (r, *final(self)) == remove_active_style_spec(*old(self)),
    {
        let o = take_options(self);
        let (style, base) = without_active_style(o);
        *self = base;
        style
    }

    /// Whether a preset is in force.
    pub fn has_active_style(&self) -> (r: bool)
        ensures
            r == self.style.is_some(),
    {
        self.style.is_some()
    }

    /// Applies the preset `style` on top of the current values, recording
    /// what it replaced.
    pub fn apply_style_preset(&mut self, style: StylePreset)
        ensures
            *final(self) == apply_style_preset_spec(style, *old(self)),
    {
        let o = take_options(self);
        *self = with_style_preset(style, o);
    }

    /// Keeps one-line blocks, and records that this was asked for.
    pub fn keep_one_line_blocks(&mut self)
        ensures
            *final(self) == keep_one_line_blocks_spec(*old(self)),
    {
        let o = take_options(self);
        *self = with_one_line_blocks_kept(o);
    }

    /// Indents with `width` spaces.
    pub fn set_space_indentation(&mut self, width: usize)
        ensures
            *final(self) == set_indent_style_width_spec(IndentStyle::Spaces, width, *old(self)),
    {
        self.set_indent_style_width(IndentStyle::Spaces, width);
    }

    /// Indents with tabs of `width` columns.
    pub fn set_tab_indentation(&mut self, width: usize)
        ensures
            *final(self) == set_indent_style_width_spec(IndentStyle::Tabs, width, *old(self)),
    {
        self.set_indent_style_width(IndentStyle::Tabs, width);
    }

    /// Indents `width` columns per level, written with tabs wherever they fit.
    pub fn set_force_tab_indentation(&mut self, width: usize)
        ensures
            *final(self) == set_indent_style_width_spec(IndentStyle::ForceTabs, width, *old(self)),
    {
        self.set_indent_style_width(IndentStyle::ForceTabs, width);
    }

    /// Sets the indentation style and width together.
    pub fn set_indent_style_width(&mut self, style: IndentStyle, width: usize)
        ensures
            *final(self) == set_indent_style_width_spec(style, width, *old(self)),
    {
        let o = take_options(self);
        *self = with_indent_style_width(style, width, o);
    }

    /// Sets the indent width; the tab width follows unless it was set on its own.
    pub fn set_indent_width(&mut self, width: usize)
        ensures
            *final(self) == set_indent_width_spec(width, *old(self)),
    {
        let o = take_options(self);
        *self = with_indent_width(width, o);
    }

    /// Uses forced tabs of `width` columns, independent of the indent width.
    pub fn set_force_tab_width(&mut self, width: usize)
        ensures
            *final(self) == set_force_tab_width_spec(width, *old(self)),
    {
        let o = take_options(self);
        *self = with_force_tab_width(width, o);
    }

    /// Whether the Lisp style's added one-line braces break their blocks.
    pub fn lisp_add_one_line_braces_breaks_blocks(&self) -> (r: bool)
        ensures
            r == (self.brace_style == BraceStyle::Lisp && self.add_one_line_braces
                && !self.keep_one_line_blocks_explicit),
    {
        self.brace_style == BraceStyle::Lisp && self.add_one_line_braces
            && !self.keep_one_line_blocks_explicit
    }

    /// Whether several statements may stay on one line.
    pub fn keeps_multi_statement_line(&self) -> (r: bool)
        ensures
            r == !self.break_one_line_statements,
    {
        !self.break_one_line_statements
    }

    /// The line break that ends each output line.
    pub fn line_break(&self) -> (r: &'static str)
        ensures
            r@ == line_break_spec(self.line_ending),
    {
        proof {
            reveal_strlit("\n");
            reveal_strlit("\r\n");
            reveal_strlit("\r");
        }
        match self.line_ending {
            LineEnding::Preserve | LineEnding::Lf => "\n",
            LineEnding::Crlf => "\r\n",
            LineEnding::Cr => "\r",
        }
    }

    /// The indentation of nesting level `level`.
    pub fn indent_prefix(&self, level: usize) -> (r: String)
        requires
            level * self.indent_width <= usize::MAX,
        ensures
            r@ == indent_prefix_spec(scalars(*self), level as nat),
    {
        let columns = level * self.indent_width;
        match self.indent_style {
            IndentStyle::Spaces => crate::text::string_of(repeat_vec(' ', columns).as_slice()),
            IndentStyle::Tabs => crate::text::string_of(repeat_vec('\t', level).as_slice()),
            IndentStyle::ForceTabs => {
                let tab_width = if self.tab_width == 0 {
                    1
                } else {
                    self.tab_width
                };
                tabs_and_spaces(columns / tab_width, columns % tab_width)
            },
        }
    }

    /// The indentation of a continuation line of `total_columns` columns whose
    /// structure is `structural_level` levels deep.
    pub fn continuation_indent_prefix(&self, structural_level: usize, total_columns: usize) -> (r:
        String)
        ensures
            r@ == continuation_indent_prefix_spec(
                scalars(*self),
                structural_level as nat,
                total_columns as nat,
            ),
    {
        match self.indent_style {
            IndentStyle::Spaces => crate::text::string_of(
                repeat_vec(' ', total_columns).as_slice(),
            ),
            IndentStyle::ForceTabs => {
                let tab_width = if self.tab_width == 0 {
                    1
                } else {
                    self.tab_width
                };
                tabs_and_spaces(total_columns / tab_width, total_columns % tab_width)
            },
            IndentStyle::Tabs => {
                let width = if self.indent_width == 0 {
                    1
                } else {
                    self.indent_width
                };
                let tabs = if structural_level <= total_columns / width {
                    structural_level
                } else {
                    total_columns / width
                };
                proof {
                    assert(tabs * width <= (total_columns / width) * width) by (nonlinear_arith)
                        requires
                            tabs <= total_columns / width,
                            width > 0,
                    ;
                    assert((total_columns / width) * width <= total_columns) by (nonlinear_arith)
                        requires
                            width > 0,
                    ;
                }
                tabs_and_spaces(tabs, total_columns - tabs * width)
            },
        }
    }
}

} // verus!
