//! Target selection: exclude patterns, wildcard targets and the checks on a
//! target before it is formatted. The directory walk itself belongs to the
//! program; the decisions it makes on each name are here.

use super::{CliError, OsText, OsTextModel};
use super::wildcard::{wildcard_match, wildcard_match_bytes, wildcard_spec};
use crate::text::{chars_of, occurs_at, push_all, push_lit, string_of, trim_spec, trimmed};
use vstd::prelude::*;
use vstd::utf8::encode_utf8;

verus! {

/// Whether a matched exclude may start at `start` of `path`: at the start or
/// after a separator.
pub open spec fn boundary_before(path: Seq<char>, start: int) -> bool {
    start == 0 || path[start - 1] == '/'
}

/// Whether a matched exclude may end at `end` of `path`: at the end or
/// before a separator.
pub open spec fn boundary_after(path: Seq<char>, end: int) -> bool {
    end == path.len() || path[end] == '/'
}

/// Whether `pattern` occurs in `path` at `start` with a separator boundary
/// at both ends.
pub open spec fn aligned_at(path: Seq<char>, pattern: Seq<char>, start: int) -> bool {
    occurs_at(path, pattern, start) && boundary_before(path, start) && boundary_after(
        path,
        start + pattern.len(),
    )
}

/// Whether `pattern` names whole segments of `path`: it is not empty and
/// some occurrence of it starts at the path start or after a separator and
/// ends at the path end or before a separator (`lib` matches `src/lib/x.c`
/// but not `src/mylib/x.c`).
pub open spec fn path_segments_contain_spec(path: Seq<char>, pattern: Seq<char>) -> bool {
    pattern.len() > 0 && exists|start: int| #[trigger] aligned_at(path, pattern, start)
}

/// Whether `pattern` names whole segments of `path` (directory separators are `/`).
pub fn path_segments_contain(path: &[char], pattern: &[char]) -> (r: bool)
    ensures
        r == path_segments_contain_spec(path@, pattern@),
{
    if pattern.len() == 0 {
        return false;
    }
    let mut i: usize = 0;
    while i <= path.len() && pattern.len() <= path.len() - i
        invariant
            pattern@.len() > 0,
            i <= path@.len(),
            forall|s: int| 0 <= s < i ==> !#[trigger] aligned_at(path@, pattern@, s),
        decreases path.len() - i,
    {
        if crate::text::matches_at(path, pattern, i) {
            let end = i + pattern.len();
            let before = i == 0 || path[i - 1] == '/';
            let after = end == path.len() || path[end] == '/';
            if before && after {
                assert(aligned_at(path@, pattern@, i as int));
                return true;
            }
        }
        i = i + 1;
    }
    assert forall|s: int| !#[trigger] aligned_at(path@, pattern@, s) by {
        if s >= i && aligned_at(path@, pattern@, s) {
            assert(s + pattern@.len() <= path@.len());
        }
    }
    false
}

/// Whether `pattern` holds a wildcard.
pub open spec fn has_wildcard_spec(pattern: Seq<char>) -> bool {
    pattern.contains('*') || pattern.contains('?')
}

/// Whether `pattern` holds a wildcard.
pub fn has_wildcard(pattern: &[char]) -> (r: bool)
    ensures
        r == has_wildcard_spec(pattern@),
{
    crate::text::contains_char(pattern, '*') || crate::text::contains_char(pattern, '?')
}

/// Whether the exclude `pattern` matches the path `path` whose file name is
/// `name`: a wildcard pattern matches the file name or the whole path, any
/// other pattern whole segments of the path.
pub open spec fn exclude_matches_spec(pattern: Seq<char>, path: Seq<char>, name: Seq<char>) -> bool {
    if has_wildcard_spec(pattern) {
        wildcard_spec(pattern, name, '*', '?') || wildcard_spec(pattern, path, '*', '?')
    } else {
        path_segments_contain_spec(path, pattern)
    }
}

/// Whether the exclude `pattern` matches the path `path` whose file name is `name`.
pub fn exclude_matches(pattern: &str, path: &[char], name: &[char]) -> (r: bool)
    ensures
        r == exclude_matches_spec(pattern@, path@, name@),
{
    let p = chars_of(pattern);
    if has_wildcard(p.as_slice()) {
        wildcard_match(p.as_slice(), name) || wildcard_match(p.as_slice(), path)
    } else {
        path_segments_contain(path, p.as_slice())
    }
}

/// Marks every exclude that matches the path `path` (file name `name`) in
/// `matched`; says whether one did.
pub fn mark_matching_excludes(
    path: &[char],
    name: &[char],
    excludes: &Vec<String>,
    matched: &mut Vec<bool>,
) -> (r: bool)
    requires
        old(matched)@.len() >= excludes@.len(),
    ensures
        final(matched)@.len() == old(matched)@.len(),
        forall|i: int|
            0 <= i < excludes@.len() ==> #[trigger] final(matched)@[i] == (old(matched)@[i]
                || exclude_matches_spec(excludes@[i]@, path@, name@)),
        forall|i: int|
            excludes@.len() <= i < old(matched)@.len() ==> #[trigger] final(matched)@[i] == old(
                matched,
            )@[i],
        r == exists|i: int|
            0 <= i < excludes@.len() && #[trigger] exclude_matches_spec(
                excludes@[i]@,
                path@,
                name@,
            ),
{
    let mut excluded = false;
    let mut index: usize = 0;
    while index < excludes.len()
        invariant
            index <= excludes@.len() <= matched@.len(),
            matched@.len() == old(matched)@.len(),
            forall|i: int|
                0 <= i < index ==> #[trigger] matched@[i] == (old(matched)@[i]
                    || exclude_matches_spec(excludes@[i]@, path@, name@)),
            forall|i: int| index <= i < matched@.len() ==> #[trigger] matched@[i] == old(matched)@[i],
            excluded == exists|i: int|
                0 <= i < index && #[trigger] exclude_matches_spec(excludes@[i]@, path@, name@),
        decreases excludes.len() - index,
    {
        if exclude_matches(excludes[index].as_str(), path, name) {
            matched.set(index, true);
            excluded = true;
        }
        index = index + 1;
    }
    excluded
}

/// Whether the bytes `b` hold one of `*`, `?`, `,` and `;`.
pub open spec fn has_pattern_byte(b: Seq<u8>) -> bool {
    exists|i: int| 0 <= i < b.len() && (b[i] == 42u8 || b[i] == 63u8 || b[i] == 44u8 || b[i] == 59u8)
}

/// Whether the bytes `b` hold one of `*`, `?`, `,` and `;`.
pub fn contains_pattern_byte(b: &[u8]) -> (r: bool)
    ensures
        r == has_pattern_byte(b@),
{
    let mut i: usize = 0;
    while i < b.len()
        invariant
            i <= b@.len(),
            forall|j: int|
                0 <= j < i ==> !(b@[j] == 42u8 || b@[j] == 63u8 || b@[j] == 44u8 || b@[j] == 59u8),
        decreases b.len() - i,
    {
        let c = b[i];
        if c == 42u8 || c == 63u8 || c == 44u8 || c == 59u8 {
            return true;
        }
        i = i + 1;
    }
    false
}

/// Whether the bytes `b` hold a wildcard (`*` or `?`).
pub open spec fn has_wildcard_byte(b: Seq<u8>) -> bool {
    exists|i: int| 0 <= i < b.len() && (b[i] == 42u8 || b[i] == 63u8)
}

/// Whether the bytes `b` hold a wildcard (`*` or `?`).
pub fn target_has_wildcard(b: &[u8]) -> (r: bool)
    ensures
        r == has_wildcard_byte(b@),
{
    let mut i: usize = 0;
    while i < b.len()
        invariant
            i <= b@.len(),
            forall|j: int| 0 <= j < i ==> !(b@[j] == 42u8 || b@[j] == 63u8),
        decreases b.len() - i,
    {
        if b[i] == 42u8 || b[i] == 63u8 {
            return true;
        }
        i = i + 1;
    }
    false
}

/// Whether the name `b` starts with a dot (a hidden file or directory).
pub fn starts_with_dot(b: &[u8]) -> (r: bool)
    ensures
        r == (b@.len() > 0 && b@[0] == 46u8),
{
    b.len() > 0 && b[0] == 46u8
}

/// Whether the bytes `b` end with the UTF-8 bytes of `suffix`.
pub fn ends_with_text(b: &[u8], suffix: &str) -> (r: bool)
    ensures
        r == (encode_utf8(suffix@).len() <= b@.len() && b@.skip(
            b@.len() - encode_utf8(suffix@).len(),
        ) == encode_utf8(suffix@)),
{
    let s = suffix.as_bytes();
    assert(s@ == encode_utf8(suffix@));
    if s.len() > b.len() {
        return false;
    }
    let start = b.len() - s.len();
    let mut i: usize = 0;
    while i < s.len()
        invariant
            start + s@.len() == b@.len(),
            b@.len() == b.len(),
            s@ == encode_utf8(suffix@),
            i <= s@.len(),
            forall|j: int| 0 <= j < i ==> b@[start + j] == s@[j],
        decreases s.len() - i,
    {
        assert(start + i < b@.len());
        let k = start + i;
        if b[k] != s[i] {
            assert(b@.skip(start as int)[i as int] != s@[i as int]);
            assert(b@.skip(start as int) != s@);
            return false;
        }
        i = i + 1;
    }
    assert(b@.skip(start as int) =~= s@);
    true
}

/// The fields of `s` between the separators `,` and `;`, as `str::split` gives them.
pub open spec fn split_fields(s: Seq<char>) -> Seq<Seq<char>>
    decreases s.len(),
{
    if s.len() == 0 {
        seq![seq![]]
    } else {
        let prev = split_fields(s.drop_last());
        let c = s.last();
        if c == ',' || c == ';' {
            prev.push(seq![])
        } else {
            prev.update(prev.len() - 1, prev.last().push(c))
        }
    }
}

/// The fields trimmed, with the blank ones dropped.
pub open spec fn kept_fields(fields: Seq<Seq<char>>) -> Seq<Seq<char>>
    decreases fields.len(),
{
    if fields.len() == 0 {
        seq![]
    } else {
        let prev = kept_fields(fields.drop_last());
        let t = trim_spec(fields.last());
        if t.len() > 0 {
            prev.push(t)
        } else {
            prev
        }
    }
}

/// The patterns of a target's file name: its fields between `,` and `;`,
/// trimmed, the blank ones dropped.
pub open spec fn text_patterns_spec(name: Seq<char>) -> Seq<Seq<char>> {
    kept_fields(split_fields(name))
}

/// `split_fields` always gives at least one field.
proof fn lemma_split_fields_nonempty(s: Seq<char>)
    ensures
        split_fields(s).len() >= 1,
    decreases s.len(),
{
    if s.len() > 0 {
        lemma_split_fields_nonempty(s.drop_last());
    }
}

/// The views of a list of texts.
pub open spec fn texts(v: Seq<Vec<char>>) -> Seq<Seq<char>> {
    v.map_values(|t: Vec<char>| t@)
}

/// The patterns of a target's file name written in UTF-8.
pub fn text_patterns(name: &[char]) -> (r: Vec<Vec<char>>)
    ensures
        texts(r@) == text_patterns_spec(name@),
{
    let mut done: Vec<Vec<char>> = Vec::new();
    let mut current: Vec<char> = Vec::new();
    let mut i: usize = 0;
    assert(name@.take(0) =~= Seq::<char>::empty());
    assert(texts(done@) =~= Seq::<Seq<char>>::empty());
    while i < name.len()
        invariant
            i <= name@.len(),
            split_fields(name@.take(i as int)).len() >= 1,
            split_fields(name@.take(i as int)).last() == current@,
            texts(done@) == kept_fields(split_fields(name@.take(i as int)).drop_last()),
        decreases name.len() - i,
    {
        let c = name[i];
        let ghost prefix = name@.take(i + 1);
        let ghost prev = split_fields(name@.take(i as int));
        assert(prefix.drop_last() =~= name@.take(i as int));
        assert(prefix.last() == c);
        if c == ',' || c == ';' {
            let t = trimmed(current.as_slice());
            let ghost before = texts(done@);
            if t.len() > 0 {
                done.push(t);
                assert(texts(done@) =~= before.push(trim_spec(prev.last())));
            }
            assert(prev.push(seq![]).drop_last() =~= prev);
            assert(prev.drop_last().push(prev.last()) =~= prev);
            current = Vec::new();
        } else {
            current.push(c);
            assert(prev.update(prev.len() - 1, prev.last().push(c)).drop_last() =~= prev.drop_last());
        }
        i = i + 1;
    }
    assert(name@.take(i as int) =~= name@);
    let ghost fields = split_fields(name@);
    let t = trimmed(current.as_slice());
    let ghost before = texts(done@);
    if t.len() > 0 {
        done.push(t);
        assert(texts(done@) =~= before.push(trim_spec(fields.last())));
    }
    assert(fields.drop_last().push(fields.last()) =~= fields);
    done
}

/// Whether `b` is ASCII white space, as `u8::is_ascii_whitespace` decides.
pub open spec fn is_ascii_space(b: u8) -> bool {
    b == 32u8 || b == 9u8 || b == 10u8 || b == 12u8 || b == 13u8
}

/// `b` without ASCII white space at its start.
pub open spec fn trim_ascii_start_spec(b: Seq<u8>) -> Seq<u8>
    decreases b.len(),
{
    if b.len() > 0 && is_ascii_space(b[0]) {
        trim_ascii_start_spec(b.skip(1))
    } else {
        b
    }
}

/// `b` without ASCII white space at its end.
pub open spec fn trim_ascii_end_spec(b: Seq<u8>) -> Seq<u8>
    decreases b.len(),
{
    if b.len() > 0 && is_ascii_space(b.last()) {
        trim_ascii_end_spec(b.drop_last())
    } else {
        b
    }
}

/// `b` without ASCII white space at either end.
pub fn trim_ascii(b: &[u8]) -> (r: Vec<u8>)
    ensures
        r@ == trim_ascii_end_spec(trim_ascii_start_spec(b@)),
{
    let mut i: usize = 0;
    assert(b@.skip(0) =~= b@);
    while i < b.len() && is_ascii_space_byte(b[i])
        invariant
            i <= b@.len(),
            trim_ascii_start_spec(b@.skip(i as int)) == trim_ascii_start_spec(b@),
        decreases b.len() - i,
    {
        assert(b@.skip(i as int).skip(1) =~= b@.skip(i + 1));
        i = i + 1;
    }
    let mut j: usize = b.len();
    assert(b@.skip(i as int).take(j - i) =~= b@.skip(i as int));
    while j > i && is_ascii_space_byte(b[j - 1])
        invariant
            i <= j <= b@.len(),
            trim_ascii_start_spec(b@) == b@.skip(i as int),
            trim_ascii_end_spec(b@.subrange(i as int, j as int)) == trim_ascii_end_spec(
                b@.skip(i as int),
            ),
        decreases j,
    {
        assert(b@.subrange(i as int, j as int).drop_last() =~= b@.subrange(i as int, j - 1));
        j = j - 1;
    }
    let mut r: Vec<u8> = Vec::new();
    let mut k: usize = i;
    while k < j
        invariant
            i <= k <= j <= b@.len(),
            r@ == b@.subrange(i as int, k as int),
        decreases j - k,
    {
        r.push(b[k]);
        assert(b@.subrange(i as int, k + 1) =~= b@.subrange(i as int, k as int).push(b@[k as int]));
        k = k + 1;
    }
    r
}

/// Whether `b` is ASCII white space.
fn is_ascii_space_byte(b: u8) -> (r: bool)
    ensures
        r == is_ascii_space(b),
{
    b == 32u8 || b == 9u8 || b == 10u8 || b == 12u8 || b == 13u8
}

/// The fields of the bytes `b` between the separators `,` and `;`.
pub open spec fn split_byte_fields(b: Seq<u8>) -> Seq<Seq<u8>>
    decreases b.len(),
{
    if b.len() == 0 {
        seq![seq![]]
    } else {
        let prev = split_byte_fields(b.drop_last());
        let c = b.last();
        if c == 44u8 || c == 59u8 {
            prev.push(seq![])
        } else {
            prev.update(prev.len() - 1, prev.last().push(c))
        }
    }
}

/// The byte fields trimmed of ASCII white space, with the empty ones dropped.
pub open spec fn kept_byte_fields(fields: Seq<Seq<u8>>) -> Seq<Seq<u8>>
    decreases fields.len(),
{
    if fields.len() == 0 {
        seq![]
    } else {
        let prev = kept_byte_fields(fields.drop_last());
        let t = trim_ascii_end_spec(trim_ascii_start_spec(fields.last()));
        if t.len() > 0 {
            prev.push(t)
        } else {
            prev
        }
    }
}

/// The patterns of a target's file name that is no UTF-8: its byte fields
/// between `,` and `;`, trimmed of ASCII white space, the empty ones dropped.
pub open spec fn byte_patterns_spec(name: Seq<u8>) -> Seq<Seq<u8>> {
    kept_byte_fields(split_byte_fields(name))
}

/// The views of a list of byte strings.
pub open spec fn byte_texts(v: Seq<Vec<u8>>) -> Seq<Seq<u8>> {
    v.map_values(|t: Vec<u8>| t@)
}

/// The patterns of a target's file name that is no UTF-8.
pub fn byte_patterns(name: &[u8]) -> (r: Vec<Vec<u8>>)
    ensures
        byte_texts(r@) == byte_patterns_spec(name@),
{
    let mut done: Vec<Vec<u8>> = Vec::new();
    let mut current: Vec<u8> = Vec::new();
    let mut i: usize = 0;
    assert(name@.take(0) =~= Seq::<u8>::empty());
    assert(byte_texts(done@) =~= Seq::<Seq<u8>>::empty());
    while i < name.len()
        invariant
            i <= name@.len(),
            split_byte_fields(name@.take(i as int)).len() >= 1,
            split_byte_fields(name@.take(i as int)).last() == current@,
            byte_texts(done@) == kept_byte_fields(split_byte_fields(name@.take(i as int)).drop_last()),
        decreases name.len() - i,
    {
        let c = name[i];
        let ghost prefix = name@.take(i + 1);
        let ghost prev = split_byte_fields(name@.take(i as int));
        assert(prefix.drop_last() =~= name@.take(i as int));
        assert(prefix.last() == c);
        if c == 44u8 || c == 59u8 {
            let t = trim_ascii(current.as_slice());
            let ghost before = byte_texts(done@);
            if t.len() > 0 {
                done.push(t);
                assert(byte_texts(done@) =~= before.push(
                    trim_ascii_end_spec(trim_ascii_start_spec(prev.last())),
                ));
            }
            assert(prev.push(seq![]).drop_last() =~= prev);
            assert(prev.drop_last().push(prev.last()) =~= prev);
            current = Vec::new();
        } else {
            current.push(c);
            assert(prev.update(prev.len() - 1, prev.last().push(c)).drop_last() =~= prev.drop_last());
        }
        i = i + 1;
    }
    assert(name@.take(i as int) =~= name@);
    let ghost fields = split_byte_fields(name@);
    let t = trim_ascii(current.as_slice());
    let ghost before = byte_texts(done@);
    if t.len() > 0 {
        done.push(t);
        assert(byte_texts(done@) =~= before.push(
            trim_ascii_end_spec(trim_ascii_start_spec(fields.last())),
        ));
    }
    assert(fields.drop_last().push(fields.last()) =~= fields);
    done
}

/// The models of a list of system texts.
pub open spec fn os_texts(v: Seq<OsText>) -> Seq<OsTextModel> {
    v.map_values(|t: OsText| t@)
}

/// The pattern written `t`, as a system text.
pub open spec fn text_pattern(t: Seq<char>) -> OsTextModel {
    OsTextModel { bytes: encode_utf8(t), text: Some(t) }
}

/// The pattern of bytes `b` (no UTF-8), as a system text.
pub open spec fn byte_pattern(b: Seq<u8>) -> OsTextModel {
    OsTextModel { bytes: b, text: None }
}

/// The patterns of a target's file name: split as text where the name is
/// UTF-8, else as bytes; no pattern at all is an error (exit code 2) whose
/// message shows the name as `display`.
pub open spec fn target_patterns_spec(name: OsTextModel, display: Seq<char>) -> Result<
    Seq<OsTextModel>,
    Seq<char>,
> {
    let patterns = match name.text {
        Some(t) => text_patterns_spec(t).map_values(|p: Seq<char>| text_pattern(p)),
        None => byte_patterns_spec(name.bytes).map_values(|b: Seq<u8>| byte_pattern(b)),
    };
    if patterns.len() == 0 {
        Err("missing filename in "@ + display)
    } else {
        Ok(patterns)
    }
}

/// The system text of the characters `t`.
fn os_text_of(t: &[char]) -> (r: OsText)
    ensures
        r@ == text_pattern(t@),
{
    let s = string_of(t);
    let b = s.as_str().as_bytes();
    let mut bytes: Vec<u8> = Vec::new();
    let mut i: usize = 0;
    while i < b.len()
        invariant
            i <= b@.len(),
            bytes@ == b@.take(i as int),
        decreases b.len() - i,
    {
        bytes.push(b[i]);
        assert(b@.take(i + 1) =~= b@.take(i as int).push(b@[i as int]));
        i = i + 1;
    }
    assert(b@.take(i as int) =~= b@);
    OsText { bytes, text: Some(s) }
}

/// The patterns of a target's file name (see `target_patterns_spec`).
pub fn split_target_patterns(name: &OsText, display: &str) -> (r: Result<Vec<OsText>, CliError>)
    ensures
        match r {
            Ok(v) => target_patterns_spec(name@, display@) == Ok::<
                Seq<OsTextModel>,
                Seq<char>,
            >(os_texts(v@)),
            Err(e) => target_patterns_spec(name@, display@) == Err::<
                Seq<OsTextModel>,
                Seq<char>,
            >(e.message()) && e.code() == 2,
        },
{
    let mut out: Vec<OsText> = Vec::new();
    match &name.text {
        Some(text) => {
            let chars = chars_of(text.as_str());
            let ps = text_patterns(chars.as_slice());
            let ghost goal = texts(ps@).map_values(|p: Seq<char>| text_pattern(p));
            let mut i: usize = 0;
            while i < ps.len()
                invariant
                    i <= ps@.len(),
                    goal == texts(ps@).map_values(|p: Seq<char>| text_pattern(p)),
                    os_texts(out@) == goal.take(i as int),
                decreases ps.len() - i,
            {
                let ghost before = os_texts(out@);
                out.push(os_text_of(ps[i].as_slice()));
                assert(os_texts(out@) =~= before.push(goal[i as int]));
                assert(goal.take(i + 1) =~= goal.take(i as int).push(goal[i as int]));
                i = i + 1;
            }
            assert(goal.take(i as int) =~= goal);
        },
        None => {
            let ps = byte_patterns(name.bytes.as_slice());
            let ghost goal = byte_texts(ps@).map_values(|b: Seq<u8>| byte_pattern(b));
            let mut i: usize = 0;
            while i < ps.len()
                invariant
                    i <= ps@.len(),
                    goal == byte_texts(ps@).map_values(|b: Seq<u8>| byte_pattern(b)),
                    os_texts(out@) == goal.take(i as int),
                decreases ps.len() - i,
            {
                let ghost before = os_texts(out@);
                let b = crate::cli::targets::copy_bytes(ps[i].as_slice());
                out.push(OsText { bytes: b, text: None });
                assert(os_texts(out@) =~= before.push(goal[i as int]));
                assert(goal.take(i + 1) =~= goal.take(i as int).push(goal[i as int]));
                i = i + 1;
            }
            assert(goal.take(i as int) =~= goal);
        },
    }
    if out.len() == 0 {
        let mut m: Vec<char> = Vec::new();
        push_lit(&mut m, "missing filename in ");
        push_lit(&mut m, display);
        Err(CliError::new(string_of(m.as_slice()), 2))
    } else {
        Ok(out)
    }
}

/// A copy of the bytes `b`.
pub fn copy_bytes(b: &[u8]) -> (r: Vec<u8>)
    ensures
        r@ == b@,
{
    let mut r: Vec<u8> = Vec::new();
    let mut i: usize = 0;
    while i < b.len()
        invariant
            i <= b@.len(),
            r@ == b@.take(i as int),
        decreases b.len() - i,
    {
        r.push(b[i]);
        assert(b@.take(i + 1) =~= b@.take(i as int).push(b@[i as int]));
        i = i + 1;
    }
    assert(b@.take(i as int) =~= b@);
    r
}

/// Whether the name `text` matches the target pattern `pattern`: by
/// characters where both are UTF-8, else by bytes.
pub open spec fn target_match_spec(pattern: OsTextModel, text: OsTextModel) -> bool {
    match (pattern.text, text.text) {
        (Some(p), Some(t)) => wildcard_spec(p, t, '*', '?'),
        _ => wildcard_spec(pattern.bytes, text.bytes, 42u8, 63u8),
    }
}

/// Whether the name `text` matches the target pattern `pattern`.
pub fn target_wildcard_match(pattern: &OsText, text: &OsText) -> (r: bool)
    ensures
        r == target_match_spec(pattern@, text@),
{
    match (&pattern.text, &text.text) {
        (Some(p), Some(t)) => {
            let pc = chars_of(p.as_str());
            let tc = chars_of(t.as_str());
            wildcard_match(pc.as_slice(), tc.as_slice())
        },
        _ => wildcard_match_bytes(pattern.bytes.as_slice(), text.bytes.as_slice()),
    }
}

/// The error of a recursive request whose target holds no wildcard.
fn no_wildcard_error() -> (r: CliError)
    ensures
        r.message() == "recursive option with no wildcard"@,
        r.code() == 2,
        !r.to_stdout(),
{
    CliError::new(string_of(chars_of("recursive option with no wildcard").as_slice()), 2)
}

/// Whether the target whose file name is `name` is a pattern to expand
/// (its name holds `*`, `?`, `,` or `;`) rather than a file to take as it
/// is; a recursive request needs a pattern.
pub fn target_is_pattern(name: &OsText, recursive: bool) -> (r: Result<bool, CliError>)
    ensures
        match r {
            Ok(p) => p == has_pattern_byte(name@.bytes) && (recursive ==> p),
            Err(e) => !has_pattern_byte(name@.bytes) && recursive && e.message()
                == "recursive option with no wildcard"@ && e.code() == 2,
        },
{
    if !contains_pattern_byte(name.bytes.as_slice()) {
        if recursive {
            return Err(no_wildcard_error());
        }
        return Ok(false);
    }
    Ok(true)
}

/// Whether one of the patterns holds a wildcard.
pub open spec fn any_wildcard(patterns: Seq<OsTextModel>) -> bool {
    exists|i: int| 0 <= i < patterns.len() && #[trigger] has_wildcard_byte(patterns[i].bytes)
}

/// How the patterns of a target are used: whether one holds a wildcard, and
/// whether the directory is searched (a wildcard or more than one pattern);
/// a recursive request needs a wildcard.
pub fn plan_expansion(patterns: &Vec<OsText>, recursive: bool) -> (r: Result<(bool, bool), CliError>)
    ensures
        match r {
            Ok((w, search)) => w == any_wildcard(os_texts(patterns@)) && (recursive ==> w)
                && search == (w || patterns@.len() > 1),
            Err(e) => !any_wildcard(os_texts(patterns@)) && recursive && e.message()
                == "recursive option with no wildcard"@ && e.code() == 2,
        },
{
    let ghost pv = os_texts(patterns@);
    let mut w = false;
    let mut i: usize = 0;
    while i < patterns.len()
        invariant
            i <= patterns@.len(),
            pv == os_texts(patterns@),
            w == exists|j: int| 0 <= j < i && #[trigger] has_wildcard_byte(pv[j].bytes),
        decreases patterns.len() - i,
    {
        if target_has_wildcard(patterns[i].bytes.as_slice()) {
            assert(has_wildcard_byte(pv[i as int].bytes));
            w = true;
        }
        i = i + 1;
    }
    if recursive && !w {
        return Err(no_wildcard_error());
    }
    Ok((w, w || patterns.len() > 1))
}

/// The outcome of a directory search for a target: no file found is an
/// error (exit code 1) unless the target has a wildcard and empty lists are
/// accepted.
pub fn check_expanded(found: usize, accept_empty_list: bool, has_wildcard: bool, target: &str) -> (r:
    Result<(), CliError>)
    ensures
        match r {
            Ok(_) => found > 0 || (accept_empty_list && has_wildcard),
            Err(e) => found == 0 && !(accept_empty_list && has_wildcard) && e.message()
                == "no file to process "@ + target@ && e.code() == 1,
        },
{
    if found == 0 && !(accept_empty_list && has_wildcard) {
        let mut m: Vec<char> = Vec::new();
        push_lit(&mut m, "no file to process ");
        push_lit(&mut m, target);
        return Err(CliError::new(string_of(m.as_slice()), 1));
    }
    Ok(())
}

/// Whether the name `b` ends with the backup suffix, where backups are made.
pub open spec fn is_backup_name(b: Seq<u8>, backup_suffix: Option<Seq<char>>) -> bool {
    match backup_suffix {
        Some(s) => encode_utf8(s).len() <= b.len() && b.skip(b.len() - encode_utf8(s).len())
            == encode_utf8(s),
        None => false,
    }
}

/// Whether a directory entry named `name` is a file to format: a file, not a
/// backup (its name does not end with the backup suffix), matched by a pattern.
pub open spec fn keep_entry_spec(
    name: OsTextModel,
    is_file: bool,
    backup_suffix: Option<Seq<char>>,
    patterns: Seq<OsTextModel>,
) -> bool {
    &&& is_file
    &&& !is_backup_name(name.bytes, backup_suffix)
    &&& exists|i: int| 0 <= i < patterns.len() && #[trigger] target_match_spec(patterns[i], name)
}

/// Whether a directory entry named `name` is a file to format.
pub fn keep_entry(name: &OsText, is_file: bool, backup_suffix: Option<&str>, patterns: &Vec<OsText>) -> (r:
    bool)
    ensures
        r == keep_entry_spec(
            name@,
            is_file,
            match backup_suffix {
                Some(s) => Some(s@),
                None => None,
            },
            os_texts(patterns@),
        ),
{
    if !is_file {
        return false;
    }
    match backup_suffix {
        Some(s) => {
            if ends_with_text(name.bytes.as_slice(), s) {
                return false;
            }
        },
        None => {},
    }
    let ghost pv = os_texts(patterns@);
    let mut i: usize = 0;
    while i < patterns.len()
        invariant
            i <= patterns@.len(),
            pv == os_texts(patterns@),
            is_file,
            !is_backup_name(
                name@.bytes,
                match backup_suffix {
                    Some(s) => Some(s@),
                    None => None,
                },
            ),
            forall|j: int| 0 <= j < i ==> !#[trigger] target_match_spec(pv[j], name@),
        decreases patterns.len() - i,
    {
        if target_wildcard_match(&patterns[i], name) {
            assert(target_match_spec(pv[i as int], name@));
            return true;
        }
        i = i + 1;
    }
    false
}

/// What the system says of a target path.
/// What to do with a target, judged from its file name alone.
#[derive(Debug, Clone)]
pub enum TargetPlan {
    /// Take the target as it is: its name holds none of `*`, `?`, `,`, `;`.
    Direct,
    /// Take the file of this one pattern, which holds no wildcard, in the
    /// target's directory.
    Single(OsText),
    /// Search the target's directory for files that match one of the
    /// patterns; `has_wildcard` says whether one of them holds a wildcard.
    Search { patterns: Vec<OsText>, has_wildcard: bool },
}

/// The model of a `TargetPlan`.
pub enum TargetPlanModel {
    Direct,
    Single(OsTextModel),
    Search { patterns: Seq<OsTextModel>, has_wildcard: bool },
}

impl View for TargetPlan {
    type V = TargetPlanModel;

    open spec fn view(&self) -> TargetPlanModel {
        match *self {
            TargetPlan::Direct => TargetPlanModel::Direct,
            TargetPlan::Single(p) => TargetPlanModel::Single(p@),
            TargetPlan::Search { patterns, has_wildcard } => TargetPlanModel::Search {
                patterns: os_texts(patterns@),
                has_wildcard,
            },
        }
    }
}

/// What a target whose file name is `name` (shown as `display`) comes to:
/// a name without pattern characters is taken as it is, unless the request
/// is recursive; otherwise its patterns are searched for, or the one
/// pattern without a wildcard is taken, and a recursive request needs a
/// wildcard. Errors carry their message and exit code.
pub open spec fn plan_target_spec(name: OsTextModel, display: Seq<char>, recursive: bool) -> Result<
    TargetPlanModel,
    (Seq<char>, u8),
> {
    if !has_pattern_byte(name.bytes) {
        if recursive {
            Err(("recursive option with no wildcard"@, 2u8))
        } else {
            Ok(TargetPlanModel::Direct)
        }
    } else {
        match target_patterns_spec(name, display) {
            Err(m) => Err((m, 2u8)),
            Ok(ps) => if recursive && !any_wildcard(ps) {
                Err(("recursive option with no wildcard"@, 2u8))
            } else if any_wildcard(ps) || ps.len() > 1 {
                Ok(TargetPlanModel::Search { patterns: ps, has_wildcard: any_wildcard(ps) })
            } else {
                Ok(TargetPlanModel::Single(ps[0]))
            },
        }
    }
}

/// What to do with the target whose file name is `name` (see
/// `plan_target_spec`). A recursive request for a name without `*`, `?`,
/// `,` or `;` fails with exit code 2, and any other name without them is
/// taken as it is, whatever its bytes.
pub fn plan_target(name: &OsText, display: &str, recursive: bool) -> (r: Result<TargetPlan, CliError>)
    ensures
        match r {
            Ok(p) => plan_target_spec(name@, display@, recursive) == Ok::<
                TargetPlanModel,
                (Seq<char>, u8),
            >(p@),
            Err(e) => plan_target_spec(name@, display@, recursive) == Err::<
                TargetPlanModel,
                (Seq<char>, u8),
            >((e.message(), e.code())),
        },
        recursive && !has_pattern_byte(name@.bytes) ==> (r matches Err(e) && e.message()
            == "recursive option with no wildcard"@ && e.code() == 2),
        !recursive && !has_pattern_byte(name@.bytes) ==> (r matches Ok(p) && p@ is Direct),
{
    if !target_is_pattern(name, recursive)? {
        return Ok(TargetPlan::Direct);
    }
    let patterns = split_target_patterns(name, display)?;
    let (has_wildcard, search) = plan_expansion(&patterns, recursive)?;
    if search {
        Ok(TargetPlan::Search { patterns, has_wildcard })
    } else {
        let mut patterns = patterns;
        proof {
            assert(patterns@.len() == 1);
            assert(os_texts(patterns@)[0] == patterns@[0]@);
        }
        match patterns.pop() {
            Some(first) => Ok(TargetPlan::Single(first)),
            None => Ok(TargetPlan::Direct),
        }
    }
}

/// What a directory walk does with one entry of a searched directory.
#[derive(Debug, Clone, Copy, PartialEq, Eq, Structural)]
pub enum EntryPlan {
    /// Pass it by.
    Skip,
    /// A directory: pass it by if an exclude matches it, else descend into
    /// it on a recursive search where the user may write it.
    Directory,
    /// A file to format, unless the user may not write it or an exclude
    /// matches it.
    File,
}

/// What the walk does with the entry named `name`: hidden entries are
/// passed by, directories are judged as directories, and a file is kept
/// where it is a regular file, not a backup, and matches a pattern.
pub open spec fn entry_plan_spec(
    name: OsTextModel,
    is_dir: bool,
    is_file: bool,
    backup_suffix: Option<Seq<char>>,
    patterns: Seq<OsTextModel>,
) -> EntryPlan {
    if name.bytes.len() > 0 && name.bytes[0] == 46u8 {
        EntryPlan::Skip
    } else if is_dir {
        EntryPlan::Directory
    } else if keep_entry_spec(name, is_file, backup_suffix, patterns) {
        EntryPlan::File
    } else {
        EntryPlan::Skip
    }
}

/// What the walk does with the entry named `name` (see `entry_plan_spec`).
pub fn plan_entry(
    name: &OsText,
    is_dir: bool,
    is_file: bool,
    backup_suffix: Option<&str>,
    patterns: &Vec<OsText>,
) -> (r: EntryPlan)
    ensures
        r == entry_plan_spec(
            name@,
            is_dir,
            is_file,
            match backup_suffix {
                Some(s) => Some(s@),
                None => None,
            },
            os_texts(patterns@),
        ),
{
    if starts_with_dot(name.bytes.as_slice()) {
        EntryPlan::Skip
    } else if is_dir {
        EntryPlan::Directory
    } else if keep_entry(name, is_file, backup_suffix, patterns) {
        EntryPlan::File
    } else {
        EntryPlan::Skip
    }
}

/// Whether the walk descends into a directory: no exclude matched it, the
/// search is recursive and the user may write the directory.
pub fn descends_into(excluded: bool, recursive: bool, writable: bool) -> (r: bool)
    ensures
        r == (!excluded && recursive && writable),
{
    !excluded && recursive && writable
}

/// Whether the walk takes a file it kept by name: the user may write it and
/// no exclude matched it.
pub fn takes_file(writable: bool, excluded: bool) -> (r: bool)
    ensures
        r == (writable && !excluded),
{
    writable && !excluded
}

#[derive(Debug, Clone, PartialEq, Eq)]
pub enum TargetStat {
    /// Nothing is there.
    Missing,
    /// It could not be inspected; the system's description.
    Unreadable(String),
    Directory,
    File,
    /// Something else (a device, a socket).
    Other,
}

/// The check on a target before it is formatted: a file passes; a missing
/// path or something other than a file fails with exit code 1, a directory
/// with exit code 2. `display` is the path as shown in messages.
pub open spec fn validate_spec(display: Seq<char>, stat: TargetStat) -> Result<(), (Seq<char>, u8)> {
    match stat {
        TargetStat::Missing => Err(("input file not found: "@ + display, 1u8)),
        TargetStat::Unreadable(e) => Err(("failed to inspect "@ + display + ": "@ + e@, 1u8)),
        TargetStat::Directory => Err(("directory targets are not supported: "@ + display, 2u8)),
        TargetStat::File => Ok(()),
        TargetStat::Other => Err(("input file not found: "@ + display, 1u8)),
    }
}

/// The check on a target before it is formatted.
pub fn validate_target(display: &str, stat: &TargetStat) -> (r: Result<(), CliError>)
    ensures
        match r {
            Ok(_) => validate_spec(display@, *stat) == Ok::<(), (Seq<char>, u8)>(()),
            Err(e) => validate_spec(display@, *stat) == Err::<(), (Seq<char>, u8)>(
                (e.message(), e.code()),
            ),
        },
{
    let mut m: Vec<char> = Vec::new();
    match stat {
        TargetStat::Missing | TargetStat::Other => {
            push_lit(&mut m, "input file not found: ");
            push_lit(&mut m, display);
            Err(CliError::new(string_of(m.as_slice()), 1))
        },
        TargetStat::Unreadable(e) => {
            push_lit(&mut m, "failed to inspect ");
            push_lit(&mut m, display);
            push_lit(&mut m, ": ");
            push_lit(&mut m, e.as_str());
            Err(CliError::new(string_of(m.as_slice()), 1))
        },
        TargetStat::Directory => {
            push_lit(&mut m, "directory targets are not supported: ");
            push_lit(&mut m, display);
            Err(CliError::new(string_of(m.as_slice()), 2))
        },
        TargetStat::File => Ok(()),
    }
}

} // verus!
