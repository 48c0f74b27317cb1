//! Assembler macro bodies (`.macro` ... `.endm`), whose lines are passed
//! through with their own indentation rules.

use crate::config::options::repeat_char;
use crate::config::setters::repeat_vec;
use crate::text::{
    contains_char, push_all, starts_with_char, starts_with_char_spec, starts_with_spec,
    string_of, strip_prefix_lit, trim_start_spec, trimmed_start, unicode_white_space,
    is_whitespace,
};
use vstd::prelude::*;

verus! {

/// Whether `rest` is empty or starts with white space.
pub open spec fn ends_word(rest: Seq<char>) -> bool {
    rest.len() == 0 || unicode_white_space(rest[0])
}

/// Whether the trimmed line `trimmed` starts an assembler macro (`.macro`).
pub open spec fn macro_start_spec(trimmed: Seq<char>) -> bool {
    starts_with_spec(trimmed, ".macro"@) && ends_word(trimmed.skip(6))
}

/// Whether the trimmed line `trimmed` ends an assembler macro (`.endm`).
pub open spec fn macro_end_spec(trimmed: Seq<char>) -> bool {
    starts_with_spec(trimmed, ".endm"@) && ends_word(trimmed.skip(5))
}

/// Whether `rest` is empty or starts with white space.
fn ends_word_at(rest: &[char]) -> (r: bool)
    ensures
        r == ends_word(rest@),
{
    rest.len() == 0 || is_whitespace(rest[0])
}

/// Whether the trimmed line `trimmed` starts an assembler macro.
pub fn is_macro_start(trimmed: &[char]) -> (r: bool)
    ensures
        r == macro_start_spec(trimmed@),
{
    proof {
        reveal_strlit(".macro");
    }
    match strip_prefix_lit(trimmed, ".macro") {
        Some(rest) => ends_word_at(rest.as_slice()),
        None => false,
    }
}

/// Whether the trimmed line `trimmed` ends an assembler macro.
pub fn is_macro_end(trimmed: &[char]) -> (r: bool)
    ensures
        r == macro_end_spec(trimmed@),
{
    proof {
        reveal_strlit(".endm");
    }
    match strip_prefix_lit(trimmed, ".endm") {
        Some(rest) => ends_word_at(rest.as_slice()),
        None => false,
    }
}

/// The width of the blanks `lead` from column `col`, tabs at every eighth column.
pub open spec fn lead_width(lead: Seq<char>, col: nat) -> nat
    decreases lead.len(),
{
    if lead.len() == 0 {
        col
    } else {
        lead_width(lead.skip(1), if lead[0] == '\t' {
            (col + (8 - col % 8)) as nat
        } else {
            col + 1
        })
    }
}

/// A lead never moves the column back, and moves it by at most eight per character.
proof fn lemma_lead_width_bounds(lead: Seq<char>, col: nat)
    ensures
        col <= lead_width(lead, col) <= col + 8 * lead.len(),
    decreases lead.len(),
{
    if lead.len() > 0 {
        let next: nat = if lead[0] == '\t' {
            (col + (8 - col % 8)) as nat
        } else {
            col + 1
        };
        assert(next <= col + 8);
        lemma_lead_width_bounds(lead.skip(1), next);
    }
}

/// A line of a macro body as it is written: without its lead where the lead
/// is not kept; where it is kept, a lead of tabs becomes as many spaces as it
/// is wide, and an unindented line after a preprocessor line takes the
/// indent of the line before.
pub open spec fn macro_line_spec(
    line: Seq<char>,
    preserve_leading: bool,
    after_preprocessor: Option<usize>,
) -> Seq<char> {
    let trimmed = trim_start_spec(line);
    if !preserve_leading {
        trimmed
    } else {
        let lead = line.take(line.len() - trimmed.len());
        let w = lead_width(lead, 0);
        if after_preprocessor is Some && w == 0 && after_preprocessor->0 > 0 {
            repeat_char(' ', after_preprocessor->0 as nat) + trimmed
        } else if lead.contains('\t') {
            repeat_char(' ', w) + trimmed
        } else {
            trimmed
        }
    }
}

/// `trim_start_spec` drops a prefix.
proof fn lemma_trim_start_suffix(s: Seq<char>)
    ensures
        trim_start_spec(s).len() <= s.len(),
        trim_start_spec(s) == s.skip(s.len() - trim_start_spec(s).len()),
    decreases s.len(),
{
    if s.len() > 0 && unicode_white_space(s[0]) {
        lemma_trim_start_suffix(s.drop_first());
        assert(s.drop_first().skip(s.drop_first().len() - trim_start_spec(s).len()) =~= s.skip(
            s.len() - trim_start_spec(s).len(),
        ));
    } else {
        assert(s.skip(0) =~= s);
    }
}

/// A line of a macro body as it is written (see `macro_line_spec`).
pub fn format_macro_line(line: &[char], preserve_leading: bool, after_preprocessor: Option<usize>) -> (r:
    Vec<char>)
    requires
        line@.len() * 8 <= usize::MAX,
    ensures
        r@ == macro_line_spec(line@, preserve_leading, after_preprocessor),
{
    let trimmed = trimmed_start(line);
    if !preserve_leading {
        return trimmed;
    }
    proof {
        lemma_trim_start_suffix(line@);
    }
    let lead_len = line.len() - trimmed.len();
    let ghost lead = line@.take(lead_len as int);
    let mut width: usize = 0;
    let mut i: usize = 0;
    assert(lead.skip(0) =~= lead);
    proof {
        lemma_lead_width_bounds(lead, 0);
    }
    while i < lead_len
        invariant
            i <= lead_len <= line@.len(),
            line@.len() * 8 <= usize::MAX,
            lead == line@.take(lead_len as int),
            lead_width(lead.skip(i as int), width as nat) == lead_width(lead, 0),
            width <= 8 * i,
        decreases lead_len - i,
    {
        let c = line[i];
        assert(lead.skip(i as int)[0] == c);
        assert(lead.skip(i as int).skip(1) =~= lead.skip(i + 1));
        if c == '\t' {
            width = width + (8 - width % 8);
        } else {
            width = width + 1;
        }
        i = i + 1;
    }
    assert(lead.skip(i as int) =~= Seq::<char>::empty());
    let mut out: Vec<char> = Vec::new();
    let lead_vec = crate::text::subrange(line, 0, lead_len);
    assert(lead_vec@ =~= lead);
    match after_preprocessor {
        Some(indent) => {
            if width == 0 && indent > 0 {
                let spaces = repeat_vec(' ', indent);
                push_all(&mut out, spaces.as_slice());
                push_all(&mut out, trimmed.as_slice());
                return out;
            }
        },
        None => {},
    }
    if contains_char(lead_vec.as_slice(), '\t') {
        let spaces = repeat_vec(' ', width);
        push_all(&mut out, spaces.as_slice());
        push_all(&mut out, trimmed.as_slice());
        out
    } else {
        trimmed
    }
}

/// The number of spaces at the start of `s`.
pub open spec fn leading_spaces(s: Seq<char>) -> nat
    decreases s.len(),
{
    if s.len() > 0 && s[0] == ' ' {
        1 + leading_spaces(s.skip(1))
    } else {
        0
    }
}

/// The number of spaces at the start of `s`.
fn count_leading_spaces(s: &[char]) -> (r: usize)
    ensures
        r == leading_spaces(s@),
{
    let mut i: usize = 0;
    assert(s@.skip(0) =~= s@);
    while i < s.len() && s[i] == ' '
        invariant
            i <= s@.len(),
            i + leading_spaces(s@.skip(i as int)) == leading_spaces(s@),
        decreases s.len() - i,
    {
        assert(s@.skip(i as int)[0] == ' ');
        assert(s@.skip(i as int).skip(1) =~= s@.skip(i + 1));
        i = i + 1;
    }
    if i < s.len() {
        assert(s@.skip(i as int)[0] == s@[i as int]);
    }
    i
}

/// Where the pass over assembler macro bodies stands.
#[derive(Debug, Clone, Copy, PartialEq, Eq)]
pub struct AssemblyMacroLines {
    pub active: bool,
    pub preserve_leading: bool,
    pub after_preprocessor: bool,
    pub current_indent_spaces: usize,
}

impl Default for AssemblyMacroLines {
    fn default() -> (r: Self)
        ensures
            !r.active && !r.preserve_leading && !r.after_preprocessor && r.current_indent_spaces
                == 0,
    {
        Self {
            active: false,
            preserve_leading: false,
            after_preprocessor: false,
            current_indent_spaces: 0,
        }
    }
}

/// The pass after the raw line `line`, and the line it writes (`None` where
/// the line is none of its business). A preprocessor line inside a macro is
/// only noted; a macro's lines are written by `macro_line_spec`; a line
/// starting with `@` makes the leads of later lines kept.
pub open spec fn take_raw_line_spec(st: AssemblyMacroLines, line: Seq<char>) -> (
    AssemblyMacroLines,
    Option<Seq<char>>,
) {
    let trimmed = trim_start_spec(line);
    if st.active && starts_with_char_spec(trimmed, '#') {
        (AssemblyMacroLines { after_preprocessor: true, ..st }, None)
    } else if line.len() == 0 || !(st.active || macro_start_spec(trimmed)) {
        (st, None)
    } else {
        let output = macro_line_spec(
            line,
            st.preserve_leading,
            if st.after_preprocessor {
                Some(st.current_indent_spaces)
            } else {
                None
            },
        );
        let active = if macro_end_spec(trimmed) {
            false
        } else if macro_start_spec(trimmed) {
            true
        } else {
            st.active
        };
        (
            AssemblyMacroLines {
                active,
                preserve_leading: st.preserve_leading || starts_with_char_spec(trimmed, '@'),
                after_preprocessor: false,
                current_indent_spaces: leading_spaces(output) as usize,
            },
            Some(output),
        )
    }
}

/// Spaces at the start never outnumber the characters.
proof fn lemma_leading_spaces_bound(s: Seq<char>)
    ensures
        leading_spaces(s) <= s.len(),
    decreases s.len(),
{
    if s.len() > 0 && s[0] == ' ' {
        lemma_leading_spaces_bound(s.skip(1));
    }
}

impl AssemblyMacroLines {
    /// Takes the raw line `line` where it belongs to a macro body, and gives
    /// the line to write.
    pub fn take_raw_line(&mut self, line: &[char]) -> (r: Option<String>)
        requires
            line@.len() * 8 <= usize::MAX,
        ensures
            (*final(self), match r {
                Some(s) => Some(s@),
                None => None,
            }) == take_raw_line_spec(*old(self), line@),
    {
        let trimmed = trimmed_start(line);
        if self.active && starts_with_char(trimmed.as_slice(), '#') {
            self.after_preprocessor = true;
            return None;
        }
        if line.len() == 0 || !(self.active || is_macro_start(trimmed.as_slice())) {
            return None;
        }
        let indent = if self.after_preprocessor {
            Some(self.current_indent_spaces)
        } else {
            None
        };
        let output = format_macro_line(line, self.preserve_leading, indent);
        let spaces = count_leading_spaces(output.as_slice());
        self.current_indent_spaces = spaces;
        if is_macro_start(trimmed.as_slice()) {
            self.active = true;
        }
        if starts_with_char(trimmed.as_slice(), '@') {
            self.preserve_leading = true;
        }
        if is_macro_end(trimmed.as_slice()) {
            self.active = false;
        }
        self.after_preprocessor = false;
        Some(string_of(output.as_slice()))
    }

    /// Notes a preprocessor line, which matters inside a macro body.
    pub fn observe_preprocessor(&mut self)
        ensures
            *final(self) == (if old(self).active {
                AssemblyMacroLines { after_preprocessor: true, ..*old(self) }
            } else {
                *old(self)
            }),
    {
        if self.active {
            self.after_preprocessor = true;
        }
    }
}

} // verus!
