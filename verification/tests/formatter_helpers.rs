use cstyle::formatter::assembly::{format_macro_line, is_macro_end, is_macro_start, AssemblyMacroLines};
use cstyle::formatter::columns::{drop_leading_columns, leading_visual_width, visual_column_at, visual_width_from};
use cstyle::formatter::lines::{
    comment_starts_header_word, contains_one_line_block, is_asm_block_header,
    is_break_blocks_closing_header, is_break_blocks_opening_header, is_decorative_block_comment_closer,
    is_namespace_block_header, is_namespace_or_module_block_header, lambda_header_has_trailing_return,
    line_opens_backslash_control_body, line_starts_call_expression, post_closing_declaration_owns_comment,
};
use cstyle::formatter::scanning::{
    has_outer_template_comma, has_top_level_comma_text, line_has_constructor_init_colon,
    matching_open_index, max_template_angle_depth, paren_depth_delta, simple_trailing_open_paren_line,
};
use cstyle::formatter::shapes::{
    callee_name_start_before_open, constructor_signature_ends_with_parameter_list,
    finish_postprocessed_lines, has_inline_constructor_initializer_colon, is_split_export_head,
    previous_line_is_namespace_header, split_output_lines, split_return_call_with_comment,
};

fn c(text: &str) -> Vec<char> {
    text.chars().collect()
}

fn s(chars: &[char]) -> String {
    chars.iter().collect()
}

#[test]
fn visual_width_counts_tabs_to_the_next_stop() {
    assert_eq!(visual_width_from(&c("a\tb"), 0, 4), 5);
    assert_eq!(visual_width_from(&c("a\tb"), 2, 4), 3);
    assert_eq!(visual_width_from(&c(""), 7, 4), 0);
}

#[test]
fn visual_width_counts_encoded_bytes_of_other_characters() {
    assert_eq!(visual_width_from(&c("é"), 0, 4), 2);
}

#[test]
fn visual_width_treats_a_zero_tab_width_as_one() {
    assert_eq!(visual_width_from(&c("\t\t"), 0, 0), 2);
}

#[test]
fn leading_width_stops_at_the_first_non_blank() {
    assert_eq!(leading_visual_width(&c("\t  x"), 4), 6);
    assert_eq!(leading_visual_width(&c(" \tx"), 8), 8);
    assert_eq!(leading_visual_width(&c("x  "), 4), 0);
}

#[test]
fn drop_leading_columns_stops_once_enough_columns_are_gone() {
    assert_eq!(s(&drop_leading_columns(&c("\t\tfoo"), 4, 4)), "\tfoo");
    assert_eq!(s(&drop_leading_columns(&c("  x"), 5, 4)), "x");
    assert_eq!(s(&drop_leading_columns(&c("\tx"), 1, 4)), "x");
    assert_eq!(s(&drop_leading_columns(&c("    x"), 0, 4)), "    x");
}

#[test]
fn visual_column_counts_one_per_character_but_tabs() {
    assert_eq!(visual_column_at(&c("a\tb"), 2, 4), 4);
    assert_eq!(visual_column_at(&c("éé"), 2, 4), 2);
    assert_eq!(visual_column_at(&c("abc"), 0, 4), 0);
}

#[test]
fn namespace_headers_are_recognised() {
    assert!(is_namespace_block_header(&c("  namespace foo {")));
    assert!(is_namespace_block_header(&c("namespace")));
    assert!(is_namespace_block_header(&c("inline namespace v1 {")));
    assert!(!is_namespace_block_header(&c("namespaced x;")));
    assert!(is_namespace_or_module_block_header(&c(" module m {")));
    assert!(!is_namespace_or_module_block_header(&c("modules")));
}

#[test]
fn header_words_are_matched_exactly() {
    assert!(is_break_blocks_closing_header(&c("else")));
    assert!(is_break_blocks_closing_header(&c("@finally")));
    assert!(!is_break_blocks_closing_header(&c("elsewhere")));
    assert!(is_break_blocks_opening_header(&c("switch")));
    assert!(is_break_blocks_opening_header(&c("default")));
    assert!(!is_break_blocks_opening_header(&c("iff")));
    assert!(is_asm_block_header(&c("__asm")));
    assert!(!is_asm_block_header(&c("asm")));
}

#[test]
fn one_line_blocks_close_after_their_first_open_brace() {
    assert!(contains_one_line_block(&c("if (x) { y(); }")));
    assert!(!contains_one_line_block(&c("{")));
    assert!(!contains_one_line_block(&c("} {")));
    assert!(contains_one_line_block(&c("a } b { c }")));
}

#[test]
fn trailing_return_arrows_follow_a_parameter_list() {
    assert!(lambda_header_has_trailing_return(&c("[](int x) -> int {")));
    assert!(lambda_header_has_trailing_return(&c("f() ->")));
    assert!(!lambda_header_has_trailing_return(&c("x->y")));
}

#[test]
fn backslash_control_bodies_start_with_a_keyword() {
    assert!(line_opens_backslash_control_body(&c("if (x) \\")));
    assert!(line_opens_backslash_control_body(&c("else\\")));
    assert!(line_opens_backslash_control_body(&c("while(x)")));
    assert!(!line_opens_backslash_control_body(&c("iffy \\")));
}

#[test]
fn call_expressions_start_with_a_word_and_a_paren() {
    assert!(line_starts_call_expression(&c("foo (x)")));
    assert!(!line_starts_call_expression(&c("foo = (x)")));
    assert!(!line_starts_call_expression(&c("(x)")));
}

#[test]
fn decorative_closers_hold_only_stars_and_slashes() {
    assert!(is_decorative_block_comment_closer(&c("***/")));
    assert!(is_decorative_block_comment_closer(&c("*/")));
    assert!(!is_decorative_block_comment_closer(&c("a */")));
    assert!(!is_decorative_block_comment_closer(&c("/")));
}

#[test]
fn comment_header_words_need_a_paren_or_blank_after_them() {
    assert!(comment_starts_header_word(&c("if (x)"), &c("if")));
    assert!(comment_starts_header_word(&c("for(;;)"), &c("for")));
    assert!(!comment_starts_header_word(&c("iffy"), &c("if")));
    assert!(!comment_starts_header_word(&c("if"), &c("if")));
}

#[test]
fn closing_declarations_own_their_comment_unless_a_block_continues() {
    assert!(post_closing_declaration_owns_comment(&c("} foo;")));
    assert!(post_closing_declaration_owns_comment(&c("} // note")));
    assert!(!post_closing_declaration_owns_comment(&c("} else {")));
    assert!(!post_closing_declaration_owns_comment(&c("} while (x);")));
    assert!(!post_closing_declaration_owns_comment(&c("}")));
    assert!(!post_closing_declaration_owns_comment(&c("foo;")));
}

#[test]
fn paren_delta_skips_string_and_character_literals() {
    assert_eq!(paren_depth_delta(&c("f(a, (b)")), 1);
    assert_eq!(paren_depth_delta(&c("g(\")\")")), 0);
    assert_eq!(paren_depth_delta(&c("h(')')")), 0);
    assert_eq!(paren_depth_delta(&c("))")), -2);
}

#[test]
fn template_angle_depth_is_the_deepest_nesting() {
    assert_eq!(max_template_angle_depth(&c("std::map<int, std::vector<int>>")), 2);
    assert_eq!(max_template_angle_depth(&c("a > b")), 0);
    assert_eq!(max_template_angle_depth(&c("<<>")), 2);
}

#[test]
fn outer_template_commas_sit_at_angle_depth_one() {
    assert!(has_outer_template_comma(&c("std::map<int, int>")));
    assert!(!has_outer_template_comma(&c("f<a<b, c>>")));
    assert!(!has_outer_template_comma(&c("x<f(a, b)>")));
}

#[test]
fn top_level_commas_ignore_brackets_and_strings() {
    assert!(has_top_level_comma_text(&c("a, b")));
    assert!(!has_top_level_comma_text(&c("f(a, b)")));
    assert!(!has_top_level_comma_text(&c("\"a,b\"")));
    assert!(has_top_level_comma_text(&c("\"\\\",\" , x")));
}

#[test]
fn matching_open_index_gives_a_byte_offset() {
    assert_eq!(matching_open_index(&c("f(a(b))"), '(', ')'), Some(1));
    assert_eq!(matching_open_index(&c("é(x)"), '(', ')'), Some(2));
    assert_eq!(matching_open_index(&c("f(x"), '(', ')'), None);
    assert_eq!(matching_open_index(&c("a)"), '(', ')'), None);
}

#[test]
fn constructor_init_colons_follow_a_closing_paren() {
    assert!(line_has_constructor_init_colon(&c("Foo() : x(1)")));
    assert!(!line_has_constructor_init_colon(&c("a ? b : c")));
    assert!(!line_has_constructor_init_colon(&c("Foo()::bar")));
}

#[test]
fn simple_trailing_open_parens_follow_a_plain_name() {
    assert!(simple_trailing_open_paren_line(&c("foo(")));
    assert!(simple_trailing_open_paren_line(&c("  ns::call (  ")));
    assert!(!simple_trailing_open_paren_line(&c("x = foo(")));
    assert!(!simple_trailing_open_paren_line(&c("foo()(")));
    assert!(!simple_trailing_open_paren_line(&c("(")));
    assert!(!simple_trailing_open_paren_line(&c("3d(")));
}

#[test]
fn callee_names_end_before_the_open_paren() {
    assert_eq!(callee_name_start_before_open(&c("  foo (x)"), 6), Some(2));
    assert_eq!(callee_name_start_before_open(&c("(x)"), 0), None);
    assert_eq!(callee_name_start_before_open(&c("+ ("), 2), None);
    assert_eq!(callee_name_start_before_open(&c("ab"), 3), None);
}

#[test]
fn parameter_lists_may_be_followed_by_qualifiers() {
    assert!(constructor_signature_ends_with_parameter_list(&c("Foo(int x) const")));
    assert!(constructor_signature_ends_with_parameter_list(&c("Foo(int x) &&  ")));
    assert!(constructor_signature_ends_with_parameter_list(&c("f() const noexcept override")));
    assert!(!constructor_signature_ends_with_parameter_list(&c("int x")));
}

#[test]
fn inline_initializer_colons_follow_a_constructor_call_shape() {
    assert!(has_inline_constructor_initializer_colon(&c("Foo(int x) : x_(x) {")));
    assert!(has_inline_constructor_initializer_colon(&c("Foo::Foo(int x) : a(x)")));
    assert!(!has_inline_constructor_initializer_colon(&c("a ? b() : c")));
    assert!(!has_inline_constructor_initializer_colon(&c("void f(int x) :y")));
}

#[test]
fn split_export_heads_name_an_upper_case_macro() {
    assert!(is_split_export_head(&c("class MY_EXPORT")));
    assert!(!is_split_export_head(&c("class MyExport")));
    assert!(!is_split_export_head(&c("class X")));
    assert!(!is_split_export_head(&c("class A_B Foo")));
    assert!(!is_split_export_head(&c("enum API")));
}

#[test]
fn output_lines_drop_one_empty_tail() {
    let lines = split_output_lines(&c("a\nb\n"), &c("\n"));
    assert_eq!(lines.iter().map(|l| s(l)).collect::<Vec<_>>(), vec!["a", "b"]);
    let lines = split_output_lines(&c("a\r\nb"), &c("\r\n"));
    assert_eq!(lines.iter().map(|l| s(l)).collect::<Vec<_>>(), vec!["a", "b"]);
    let lines = split_output_lines(&c("a\n\n"), &c("\n"));
    assert_eq!(lines.iter().map(|l| s(l)).collect::<Vec<_>>(), vec!["a", ""]);
    assert!(split_output_lines(&c(""), &c("\n")).is_empty());
}

#[test]
fn finished_lines_are_joined_by_the_line_break() {
    let lines = vec!["a".to_string(), "b".to_string()];
    assert_eq!(finish_postprocessed_lines(&lines, "\n", true), "a\nb\n");
    assert_eq!(finish_postprocessed_lines(&lines, "\r\n", false), "a\r\nb");
    assert_eq!(finish_postprocessed_lines(&Vec::new(), "\n", true), "");
}

#[test]
fn namespace_header_lookback_skips_blank_lines() {
    let input = vec!["namespace a {".to_string(), "".to_string(), "  ".to_string()];
    assert!(previous_line_is_namespace_header(&input, 3));
    let input = vec!["int x;".to_string(), "namespace b {".to_string()];
    assert!(!previous_line_is_namespace_header(&input, 1));
    assert!(!previous_line_is_namespace_header(&input, 0));
}

#[test]
fn macro_markers_are_whole_words() {
    assert!(is_macro_start(&c(".macro foo")));
    assert!(is_macro_start(&c(".macro")));
    assert!(!is_macro_start(&c(".macros")));
    assert!(is_macro_end(&c(".endm")));
    assert!(!is_macro_end(&c(".endmacro")));
}

#[test]
fn macro_lines_keep_tab_widths_as_spaces() {
    assert_eq!(s(&format_macro_line(&c("\t  mov x"), true, None)), "          mov x");
    assert_eq!(s(&format_macro_line(&c("  mov"), true, None)), "mov");
    assert_eq!(s(&format_macro_line(&c("mov"), true, Some(4))), "    mov");
    assert_eq!(s(&format_macro_line(&c("  mov"), false, Some(4))), "mov");
    assert_eq!(s(&format_macro_line(&c("  mov"), true, Some(4))), "mov");
}

#[test]
fn assembly_macro_lines_pass_through_a_macro_body() {
    let mut lines = AssemblyMacroLines::default();
    assert_eq!(lines.take_raw_line(&c("mov r0, r1")), None);
    assert_eq!(lines.take_raw_line(&c("  .macro foo")), Some(".macro foo".to_string()));
    assert!(lines.active);
    assert_eq!(lines.take_raw_line(&c("    mov r0")), Some("mov r0".to_string()));
    assert_eq!(lines.take_raw_line(&c("#ifdef X")), None);
    assert!(lines.after_preprocessor);
    assert_eq!(lines.take_raw_line(&c(".endm")), Some(".endm".to_string()));
    assert!(!lines.active);
    assert!(!lines.after_preprocessor);
    assert_eq!(lines.take_raw_line(&c("  nop")), None);
}

#[test]
fn observed_preprocessor_lines_only_count_inside_a_macro() {
    let mut lines = AssemblyMacroLines::default();
    lines.observe_preprocessor();
    assert!(!lines.after_preprocessor);
    lines.take_raw_line(&c(".macro m"));
    lines.observe_preprocessor();
    assert!(lines.after_preprocessor);
}

#[test]
fn commented_return_calls_split_after_the_open_paren() {
    let mut line = "    return foo(a, b); // note".to_string();
    let tail = split_return_call_with_comment(&mut line);
    assert_eq!(line, "    return foo(");
    assert_eq!(tail, Some(format!("{}a, b); // note", " ".repeat(15))));
}

#[test]
fn return_split_indents_by_the_bytes_of_the_leading_blank() {
    let mut line = "\u{3000}return f(x); // c".to_string();
    let tail = split_return_call_with_comment(&mut line);
    assert_eq!(line, "\u{3000}return f(");
    assert_eq!(tail, Some(format!("{}x); // c", " ".repeat(14))));
}

#[test]
fn other_lines_are_not_split_as_return_calls() {
    for text in ["return x; // c", "return f(a) // c", "x = f(a); // c", "return f(a);"] {
        let mut line = text.to_string();
        assert_eq!(split_return_call_with_comment(&mut line), None);
        assert_eq!(line, text);
    }
}

#[test]
fn split_lines_finish_back_into_the_output() {
    for (output, line_break) in [
        ("a\nb\n", "\n"),
        ("a\n\n", "\n"),
        ("", "\n"),
        ("x", "\n"),
        ("\r\n\r\nint x;", "\r\n"),
        ("a\rb\r", "\r"),
    ] {
        let lines: Vec<String> = split_output_lines(&c(output), &c(line_break))
            .iter()
            .map(|line| s(line))
            .collect();
        let trailing = output.ends_with(line_break);
        assert_eq!(finish_postprocessed_lines(&lines, line_break, trailing), output);
    }
}

#[test]
fn an_empty_line_break_splits_between_characters() {
    let lines = split_output_lines(&c("ab"), &c(""));
    assert_eq!(lines.iter().map(|l| s(l)).collect::<Vec<_>>(), vec!["", "a", "b"]);
    let lines = split_output_lines(&c(""), &c(""));
    assert_eq!(lines.iter().map(|l| s(l)).collect::<Vec<_>>(), vec![""]);
    let expected: Vec<&str> = "ab".split("").collect();
    assert_eq!(expected, vec!["", "a", "b", ""]);
}
