use cstyle::api::Formatter;
use cstyle::config::{
    apply_command_line_args, BraceStyle, FormatOptions, IndentStyle, MinConditionalIndent,
    StylePreset,
};

#[test]
fn formatter_facade_styles_match_parsed_options() {
    for (style, option) in [
        (StylePreset::Off, "--style=none"),
        (StylePreset::Allman, "--style=allman"),
        (StylePreset::Java, "--style=java"),
        (StylePreset::Kr, "--style=kr"),
        (StylePreset::Stroustrup, "--style=stroustrup"),
        (StylePreset::Whitesmith, "--style=whitesmith"),
        (StylePreset::Vtk, "--style=vtk"),
        (StylePreset::Ratliff, "--style=ratliff"),
        (StylePreset::Gnu, "--style=gnu"),
        (StylePreset::Linux, "--style=linux"),
        (StylePreset::Horstmann, "--style=horstmann"),
        (StylePreset::OneTrueBrace, "--style=1tbs"),
        (StylePreset::Google, "--style=google"),
        (StylePreset::Mozilla, "--style=mozilla"),
        (StylePreset::WebKit, "--style=webkit"),
        (StylePreset::Pico, "--style=pico"),
        (StylePreset::Lisp, "--style=lisp"),
    ] {
        let mut expected = FormatOptions::default();
        apply_command_line_args(&mut expected, &[option.to_string()]).expect("parse style option");

        let mut formatter = Formatter::new();
        formatter.options_mut().set_style(style);

        assert_eq!(formatter.options(), &expected, "{option}");
    }
}

#[test]
fn explicit_api_option_survives_a_later_unrelated_style() {
    let mut formatter = Formatter::new();
    formatter.options_mut().set_style(StylePreset::Linux);
    formatter
        .options_mut()
        .set_min_conditional_indent(MinConditionalIndent::Zero);
    formatter.options_mut().set_style(StylePreset::Allman);

    assert_eq!(
        formatter.options().min_conditional_indent,
        MinConditionalIndent::Zero
    );
}

#[test]
fn setting_a_new_style_replaces_earlier_style_defaults() {
    let mut formatter = Formatter::new();
    formatter.options_mut().set_style(StylePreset::Google);
    formatter.options_mut().set_style(StylePreset::Allman);
    let mut expected = FormatOptions::default();
    apply_command_line_args(&mut expected, &["--style=allman".to_string()])
        .expect("parse style option");

    assert_eq!(formatter.options(), &expected);
}

#[test]
fn none_style_clears_an_existing_brace_style() {
    let mut formatter = Formatter::new();
    formatter.options_mut().set_style(StylePreset::Allman);
    formatter.options_mut().set_style(StylePreset::Off);

    assert_eq!(formatter.options().brace_style, BraceStyle::Off);
}

#[test]
fn indentation_setters_select_one_explicit_style() {
    let mut formatter = Formatter::new();

    formatter.options_mut().set_tab_indentation(3);
    assert_eq!(formatter.options().indent_style, IndentStyle::Tabs);
    assert_eq!(formatter.options().indent_width, 3);
    assert_eq!(formatter.options().tab_width, 3);

    formatter.options_mut().set_force_tab_indentation(5);
    assert_eq!(formatter.options().indent_style, IndentStyle::ForceTabs);
    assert_eq!(formatter.options().indent_width, 5);
    assert_eq!(formatter.options().tab_width, 5);

    formatter.options_mut().set_force_tab_width(8);
    assert_eq!(formatter.options().indent_style, IndentStyle::ForceTabs);
    assert_eq!(formatter.options().indent_width, 5);
    assert_eq!(formatter.options().tab_width, 8);
}

#[test]
fn with_options_and_default_hold_the_given_options() {
    let mut options = FormatOptions::default();
    options.set_style(StylePreset::Gnu);
    let formatter = Formatter::with_options(options.clone());
    assert_eq!(formatter.options(), &options);
    assert_eq!(Formatter::default().options(), &FormatOptions::default());
}
