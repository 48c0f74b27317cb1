//! The default value of `FormatOptions`, and copies of its values.

use super::options::{BraceStyle, FormatOptions, IndentStyle, LineBetweenMembers, LineEnding, MinConditionalIndent, Mode, ObjCColonPad, PointerAlign, ReferenceAlign, default_lists, default_scalars, lists, pairs_view, scalars, strings_view};
use vstd::prelude::*;
use vstd::string::*;

verus! {

impl Default for FormatOptions {
    fn default() -> (r: Self)
        ensures
            scalars(r) == default_scalars(),
            lists(r) == default_lists(),
    {
        let mut macro_blocks: Vec<(String, String)> = Vec::new();
        macro_blocks.push(
            (String::from_str("wxBEGIN_EVENT_TABLE"), String::from_str("wxEND_EVENT_TABLE")),
        );
        macro_blocks.push(
            (String::from_str("BEGIN_MESSAGE_MAP"), String::from_str("END_MESSAGE_MAP")),
        );
        let r = Self {
            indent_width: 4,
            tab_width: 4,
            indent_style: IndentStyle::Spaces,
            brace_style: BraceStyle::Off,
            add_braces: false,
            add_one_line_braces: false,
            remove_braces: false,
            break_one_line_blocks: true,
            break_one_line_headers: false,
            break_one_line_statements: true,
            pad_operators: false,
            pad_commas: false,
            pad_parens_outside: false,
            pad_first_paren_outside: false,
            pad_parens_inside: false,
            pad_header: false,
            unpad_parens: false,
            pointer_align: PointerAlign::Off,
            reference_align: ReferenceAlign::SameAsPointer,
            max_code_length: None,
            break_after_logical: false,
            break_blocks: false,
            break_closing_header_blocks: false,
            break_closing_braces: false,
            attach_extern_c: false,
            attach_namespace: false,
            attach_class: false,
            attach_struct: true,
            attach_enum: true,
            attach_inline: false,
            attach_closing_while: false,
            break_else_ifs: false,
            no_indent_if_after_else: false,
            break_return_type: false,
            break_return_type_decl: false,
            attach_return_type: false,
            attach_return_type_decl: false,
            continuation_indent: 1,
            max_continuation_indent: 40,
            min_conditional_indent: MinConditionalIndent::Two,
            indent_after_parens: false,
            indent_braces: false,
            indent_blocks: false,
            indent_switches: false,
            indent_cases: false,
            indent_labels: false,
            indent_classes: false,
            indent_modifiers: false,
            indent_preproc_define: false,
            indent_preproc_conditional: false,
            indent_preproc_block: false,
            indent_namespaces: false,
            indent_col1_comments: false,
            delete_empty_lines: false,
            empty_line_fill: false,
            strip_comment_prefix: false,
            convert_tabs: false,
            close_templates: false,
            pad_method_prefix: false,
            unpad_method_prefix: false,
            pad_return_type: false,
            unpad_return_type: false,
            pad_param_type: false,
            unpad_param_type: false,
            align_method_colon: false,
            pad_method_colon: ObjCColonPad::NoChange,
            line_between_members: LineBetweenMembers::Off,
            mode: Mode::C,
            line_ending: LineEnding::Preserve,
            access_labels: Vec::new(),
            macro_blocks,
            control_headers: Vec::new(),
            non_paren_headers: Vec::new(),
            tab_width_explicit: false,
            keep_one_line_blocks_explicit: false,
            style: None,
        };
        assert(lists(r).macro_blocks =~= default_lists().macro_blocks);
        assert(lists(r).access_labels =~= Seq::<Seq<char>>::empty());
        assert(lists(r).control_headers =~= Seq::<Seq<char>>::empty());
        assert(lists(r).non_paren_headers =~= Seq::<Seq<char>>::empty());
        r
    }
}

/// A copy of a list of strings.
pub fn clone_strings(v: &Vec<String>) -> (r: Vec<String>)
    ensures
        strings_view(r@) == strings_view(v@),
{
    let mut r: Vec<String> = Vec::new();
    let mut i: usize = 0;
    while i < v.len()
        invariant
            i <= v@.len(),
            strings_view(r@) == strings_view(v@.take(i as int)),
        decreases v.len() - i,
    {
        let ghost before = r@;
        r.push(v[i].clone());
        assert(strings_view(r@) =~= strings_view(before).push(v@[i as int]@));
        assert(v@.take(i + 1) =~= v@.take(i as int).push(v@[i as int]));
        assert(strings_view(v@.take(i + 1)) =~= strings_view(v@.take(i as int)).push(v@[i as int]@));
        i = i + 1;
    }
    assert(v@.take(i as int) =~= v@);
    r
}

/// A copy of a list of string pairs.
pub fn clone_pairs(v: &Vec<(String, String)>) -> (r: Vec<(String, String)>)
    ensures
        pairs_view(r@) == pairs_view(v@),
{
    let mut r: Vec<(String, String)> = Vec::new();
    let mut i: usize = 0;
    while i < v.len()
        invariant
            i <= v@.len(),
            pairs_view(r@) == pairs_view(v@.take(i as int)),
        decreases v.len() - i,
    {
        let ghost before = r@;
        let a = v[i].0.clone();
        let b = v[i].1.clone();
        r.push((a, b));
        assert(pairs_view(r@) =~= pairs_view(before).push((v@[i as int].0@, v@[i as int].1@)));
        assert(v@.take(i + 1) =~= v@.take(i as int).push(v@[i as int]));
        assert(pairs_view(v@.take(i + 1)) =~= pairs_view(v@.take(i as int)).push(
            (v@[i as int].0@, v@[i as int].1@),
        ));
        i = i + 1;
    }
    assert(v@.take(i as int) =~= v@);
    r
}

impl Clone for FormatOptions {
    fn clone(&self) -> (r: Self)
        ensures
            scalars(r) == scalars(*self),
            lists(r) == lists(*self),
    {
        FormatOptions {
            indent_width: self.indent_width,
            tab_width: self.tab_width,
            indent_style: self.indent_style,
            brace_style: self.brace_style,
            add_braces: self.add_braces,
            add_one_line_braces: self.add_one_line_braces,
            remove_braces: self.remove_braces,
            break_one_line_blocks: self.break_one_line_blocks,
            break_one_line_headers: self.break_one_line_headers,
            break_one_line_statements: self.break_one_line_statements,
            pad_operators: self.pad_operators,
            pad_commas: self.pad_commas,
            pad_parens_outside: self.pad_parens_outside,
            pad_first_paren_outside: self.pad_first_paren_outside,
            pad_parens_inside: self.pad_parens_inside,
            pad_header: self.pad_header,
            unpad_parens: self.unpad_parens,
            pointer_align: self.pointer_align,
            reference_align: self.reference_align,
            max_code_length: self.max_code_length,
            break_after_logical: self.break_after_logical,
            break_blocks: self.break_blocks,
            break_closing_header_blocks: self.break_closing_header_blocks,
            break_closing_braces: self.break_closing_braces,
            attach_extern_c: self.attach_extern_c,
            attach_namespace: self.attach_namespace,
            attach_class: self.attach_class,
            attach_struct: self.attach_struct,
            attach_enum: self.attach_enum,
            attach_inline: self.attach_inline,
            attach_closing_while: self.attach_closing_while,
            break_else_ifs: self.break_else_ifs,
            no_indent_if_after_else: self.no_indent_if_after_else,
            break_return_type: self.break_return_type,
            break_return_type_decl: self.break_return_type_decl,
            attach_return_type: self.attach_return_type,
            attach_return_type_decl: self.attach_return_type_decl,
            continuation_indent: self.continuation_indent,
            max_continuation_indent: self.max_continuation_indent,
            min_conditional_indent: self.min_conditional_indent,
            indent_after_parens: self.indent_after_parens,
            indent_braces: self.indent_braces,
            indent_blocks: self.indent_blocks,
            indent_switches: self.indent_switches,
            indent_cases: self.indent_cases,
            indent_labels: self.indent_labels,
            indent_classes: self.indent_classes,
            indent_modifiers: self.indent_modifiers,
            indent_preproc_define: self.indent_preproc_define,
            indent_preproc_conditional: self.indent_preproc_conditional,
            indent_preproc_block: self.indent_preproc_block,
            indent_namespaces: self.indent_namespaces,
            indent_col1_comments: self.indent_col1_comments,
            delete_empty_lines: self.delete_empty_lines,
            empty_line_fill: self.empty_line_fill,
            strip_comment_prefix: self.strip_comment_prefix,
            convert_tabs: self.convert_tabs,
            close_templates: self.close_templates,
            pad_method_prefix: self.pad_method_prefix,
            unpad_method_prefix: self.unpad_method_prefix,
            pad_return_type: self.pad_return_type,
            unpad_return_type: self.unpad_return_type,
            pad_param_type: self.pad_param_type,
            unpad_param_type: self.unpad_param_type,
            align_method_colon: self.align_method_colon,
            pad_method_colon: self.pad_method_colon,
            line_between_members: self.line_between_members,
            mode: self.mode,
            line_ending: self.line_ending,
            access_labels: clone_strings(&self.access_labels),
            macro_blocks: clone_pairs(&self.macro_blocks),
            control_headers: clone_strings(&self.control_headers),
            non_paren_headers: clone_strings(&self.non_paren_headers),
            tab_width_explicit: self.tab_width_explicit,
            keep_one_line_blocks_explicit: self.keep_one_line_blocks_explicit,
            style: self.style,
        }
    }
}

} // verus!
