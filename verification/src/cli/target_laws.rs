//! Laws of target planning: a recursive request needs a wildcard, whatever
//! the separators in the target's name.

use super::OsTextModel;
use super::wildcard::wildcard_spec;
use super::targets::{
    exclude_matches_spec, has_wildcard_spec, is_backup_name, keep_entry_spec, target_match_spec,
    any_wildcard, byte_pattern, byte_patterns_spec, has_pattern_byte, has_wildcard_byte,
    kept_byte_fields, kept_fields, plan_target_spec, split_byte_fields, split_fields,
    target_patterns_spec, text_pattern, text_patterns_spec, trim_ascii_end_spec,
    trim_ascii_start_spec,
};
use crate::text::{trim_end_spec, trim_spec, trim_start_spec};
use vstd::prelude::*;
use vstd::utf8::{encode_scalar, encode_utf8};

verus! {

/// Whether no element of `s` is `a` or `b`.
pub open spec fn avoids<T>(s: Seq<T>, a: T, b: T) -> bool {
    forall|i: int| 0 <= i < s.len() ==> #[trigger] s[i] != a && s[i] != b
}

proof fn lemma_avoids_drop_first<T>(s: Seq<T>, a: T, b: T)
    requires
        s.len() > 0,
        avoids(s, a, b),
    ensures
        avoids(s.drop_first(), a, b),
        avoids(s.skip(1), a, b),
        avoids(s.drop_last(), a, b),
{
    assert forall|i: int| 0 <= i < s.drop_first().len() implies #[trigger] s.drop_first()[i] != a
        && s.drop_first()[i] != b by {
        assert(s.drop_first()[i] == s[i + 1]);
    }
    assert(s.skip(1) =~= s.drop_first());
    assert forall|i: int| 0 <= i < s.drop_last().len() implies #[trigger] s.drop_last()[i] != a
        && s.drop_last()[i] != b by {
        assert(s.drop_last()[i] == s[i]);
    }
}

proof fn lemma_trim_avoids(s: Seq<char>, a: char, b: char)
    requires
        avoids(s, a, b),
    ensures
        avoids(trim_start_spec(s), a, b),
        avoids(trim_end_spec(s), a, b),
    decreases s.len(),
{
    if s.len() > 0 {
        lemma_avoids_drop_first(s, a, b);
        lemma_trim_avoids(s.drop_first(), a, b);
        lemma_trim_avoids(s.drop_last(), a, b);
    }
}

proof fn lemma_trim_ascii_avoids(s: Seq<u8>, a: u8, b: u8)
    requires
        avoids(s, a, b),
    ensures
        avoids(trim_ascii_start_spec(s), a, b),
        avoids(trim_ascii_end_spec(s), a, b),
    decreases s.len(),
{
    if s.len() > 0 {
        lemma_avoids_drop_first(s, a, b);
        lemma_trim_ascii_avoids(s.skip(1), a, b);
        lemma_trim_ascii_avoids(s.drop_last(), a, b);
    }
}

proof fn lemma_split_fields_avoid(s: Seq<char>, a: char, b: char)
    requires
        avoids(s, a, b),
    ensures
        forall|k: int| 0 <= k < split_fields(s).len() ==> avoids(#[trigger] split_fields(s)[k], a, b),
        split_fields(s).len() >= 1,
    decreases s.len(),
{
    if s.len() > 0 {
        lemma_avoids_drop_first(s, a, b);
        lemma_split_fields_avoid(s.drop_last(), a, b);
        let prev = split_fields(s.drop_last());
        let c = s.last();
        assert(c == s[s.len() - 1]);
        if !(c == ',' || c == ';') {
            assert(avoids(prev.last().push(c), a, b)) by {
                assert(avoids(prev[prev.len() - 1], a, b));
                assert forall|i: int| 0 <= i < prev.last().push(c).len() implies #[trigger] prev.last().push(
                    c,
                )[i] != a && prev.last().push(c)[i] != b by {
                    if i < prev.last().len() {
                        assert(prev.last().push(c)[i] == prev.last()[i]);
                    }
                }
            }
        }
    }
}

proof fn lemma_split_byte_fields_avoid(s: Seq<u8>, a: u8, b: u8)
    requires
        avoids(s, a, b),
    ensures
        forall|k: int|
            0 <= k < split_byte_fields(s).len() ==> avoids(#[trigger] split_byte_fields(s)[k], a, b),
        split_byte_fields(s).len() >= 1,
    decreases s.len(),
{
    if s.len() > 0 {
        lemma_avoids_drop_first(s, a, b);
        lemma_split_byte_fields_avoid(s.drop_last(), a, b);
        let prev = split_byte_fields(s.drop_last());
        let c = s.last();
        assert(c == s[s.len() - 1]);
        if !(c == 44u8 || c == 59u8) {
            assert(avoids(prev.last().push(c), a, b)) by {
                assert(avoids(prev[prev.len() - 1], a, b));
                assert forall|i: int| 0 <= i < prev.last().push(c).len() implies #[trigger] prev.last().push(
                    c,
                )[i] != a && prev.last().push(c)[i] != b by {
                    if i < prev.last().len() {
                        assert(prev.last().push(c)[i] == prev.last()[i]);
                    }
                }
            }
        }
    }
}

proof fn lemma_kept_fields_avoid(fields: Seq<Seq<char>>, a: char, b: char)
    requires
        forall|k: int| 0 <= k < fields.len() ==> avoids(#[trigger] fields[k], a, b),
    ensures
        forall|k: int| 0 <= k < kept_fields(fields).len() ==> avoids(#[trigger] kept_fields(fields)[k], a, b),
    decreases fields.len(),
{
    if fields.len() > 0 {
        assert forall|k: int| 0 <= k < fields.drop_last().len() implies avoids(
            #[trigger] fields.drop_last()[k],
            a,
            b,
        ) by {
            assert(fields.drop_last()[k] == fields[k]);
        }
        lemma_kept_fields_avoid(fields.drop_last(), a, b);
        assert(avoids(fields[fields.len() - 1], a, b));
        lemma_trim_avoids(fields.last(), a, b);
        lemma_trim_avoids(trim_start_spec(fields.last()), a, b);
        let prev = kept_fields(fields.drop_last());
        assert forall|k: int| 0 <= k < kept_fields(fields).len() implies avoids(#[trigger] kept_fields(fields)[k], a, b) by {
            if k < prev.len() {
                assert(kept_fields(fields)[k] == prev[k]);
            }
        }
    }
}

proof fn lemma_kept_byte_fields_avoid(fields: Seq<Seq<u8>>, a: u8, b: u8)
    requires
        forall|k: int| 0 <= k < fields.len() ==> avoids(#[trigger] fields[k], a, b),
    ensures
        forall|k: int|
            0 <= k < kept_byte_fields(fields).len() ==> avoids(#[trigger] kept_byte_fields(fields)[k], a, b),
    decreases fields.len(),
{
    if fields.len() > 0 {
        assert forall|k: int| 0 <= k < fields.drop_last().len() implies avoids(
            #[trigger] fields.drop_last()[k],
            a,
            b,
        ) by {
            assert(fields.drop_last()[k] == fields[k]);
        }
        lemma_kept_byte_fields_avoid(fields.drop_last(), a, b);
        assert(avoids(fields[fields.len() - 1], a, b));
        lemma_trim_ascii_avoids(fields.last(), a, b);
        lemma_trim_ascii_avoids(trim_ascii_start_spec(fields.last()), a, b);
        let prev = kept_byte_fields(fields.drop_last());
        assert forall|k: int| 0 <= k < kept_byte_fields(fields).len() implies avoids(#[trigger] kept_byte_fields(fields)[k], a, b) by {
            if k < prev.len() {
                assert(kept_byte_fields(fields)[k] == prev[k]);
            }
        }
    }
}

/// The UTF-8 encoding of a character other than `*` and `?` holds neither
/// byte: only a character below 128 encodes to a byte below 128.
proof fn lemma_encode_scalar_avoids(c: char)
    requires
        c != '*',
        c != '?',
    ensures
        avoids(encode_scalar(c as u32), 42u8, 63u8),
{
    let v = c as u32;
    assert(v != 42u32 && v != 63u32);
    let e = encode_scalar(v);
    if v <= 0x7F {
        assert(((v & 0x7Fu32) as u8) != 42u8 && ((v & 0x7Fu32) as u8) != 63u8) by (bit_vector)
            requires
                v <= 0x7Fu32,
                v != 42u32,
                v != 63u32,
        ;
    } else {
        assert((0xC0u8 | ((v >> 6u32) & 0x1Fu32) as u8) >= 0x80u8) by (bit_vector);
        assert((0xE0u8 | ((v >> 12u32) & 0x0Fu32) as u8) >= 0x80u8) by (bit_vector);
        assert((0xF0u8 | ((v >> 18u32) & 0x07u32) as u8) >= 0x80u8) by (bit_vector);
        assert((0x80u8 | (v & 0x3Fu32) as u8) >= 0x80u8) by (bit_vector);
        assert((0x80u8 | ((v >> 6u32) & 0x3Fu32) as u8) >= 0x80u8) by (bit_vector);
        assert((0x80u8 | ((v >> 12u32) & 0x3Fu32) as u8) >= 0x80u8) by (bit_vector);
        assert forall|i: int| 0 <= i < e.len() implies #[trigger] e[i] >= 0x80u8 by {}
    }
}

proof fn lemma_encode_utf8_avoids(s: Seq<char>)
    requires
        avoids(s, '*', '?'),
    ensures
        avoids(encode_utf8(s), 42u8, 63u8),
    decreases s.len(),
{
    if s.len() > 0 {
        assert(s[0] != '*' && s[0] != '?');
        lemma_encode_scalar_avoids(s[0]);
        lemma_avoids_drop_first(s, '*', '?');
        lemma_encode_utf8_avoids(s.drop_first());
        let x = encode_scalar(s[0] as u32);
        let y = encode_utf8(s.drop_first());
        assert forall|i: int| 0 <= i < (x + y).len() implies #[trigger] (x + y)[i] != 42u8 && (x
            + y)[i] != 63u8 by {
            if i < x.len() {
                assert((x + y)[i] == x[i]);
            } else {
                assert((x + y)[i] == y[i - x.len()]);
            }
        }
    }
}

/// A recursive request for a target whose name holds no wildcard (neither
/// `*` nor `?`, in its bytes or, where it is text, in its characters) is
/// refused with exit code 2, whatever `,` and `;` it holds, once the name
/// gives a pattern at all.
pub proof fn lemma_recursive_target_needs_wildcard(name: OsTextModel, display: Seq<char>)
    requires
        avoids(name.bytes, 42u8, 63u8),
        name.text matches Some(t) ==> avoids(t, '*', '?'),
        target_patterns_spec(name, display) is Ok,
    ensures
        plan_target_spec(name, display, true) == Err::<super::targets::TargetPlanModel, (Seq<char>, u8)>(
            ("recursive option with no wildcard"@, 2u8),
        ),
{
    if has_pattern_byte(name.bytes) {
        let ps = target_patterns_spec(name, display)->Ok_0;
        match name.text {
            Some(t) => {
                lemma_split_fields_avoid(t, '*', '?');
                lemma_kept_fields_avoid(split_fields(t), '*', '?');
                assert forall|i: int| 0 <= i < ps.len() implies !#[trigger] has_wildcard_byte(ps[i].bytes) by {
                    let p = text_patterns_spec(t)[i];
                    assert(avoids(p, '*', '?'));
                    lemma_encode_utf8_avoids(p);
                    assert(ps[i] == text_pattern(p));
                }
            },
            None => {
                lemma_split_byte_fields_avoid(name.bytes, 42u8, 63u8);
                lemma_kept_byte_fields_avoid(split_byte_fields(name.bytes), 42u8, 63u8);
                assert forall|i: int| 0 <= i < ps.len() implies !#[trigger] has_wildcard_byte(ps[i].bytes) by {
                    let p = byte_patterns_spec(name.bytes)[i];
                    assert(avoids(p, 42u8, 63u8));
                    assert(ps[i] == byte_pattern(p));
                }
            },
        }
        assert(!any_wildcard(ps));
    }
}

/// An exclude pattern with a wildcard excludes a file wherever the wildcard
/// matcher accepts the file's whole path, and wherever it accepts the file's
/// name; a pattern without one excludes the file whose whole path it spells.
pub proof fn lemma_exclude_matches_path_or_name(pattern: Seq<char>, path: Seq<char>, name: Seq<char>)
    ensures
        has_wildcard_spec(pattern) && wildcard_spec(pattern, path, '*', '?') ==> exclude_matches_spec(
            pattern,
            path,
            name,
        ),
        has_wildcard_spec(pattern) && wildcard_spec(pattern, name, '*', '?') ==> exclude_matches_spec(
            pattern,
            path,
            name,
        ),
        !has_wildcard_spec(pattern) && pattern.len() > 0 && pattern == path ==> exclude_matches_spec(
            pattern,
            path,
            name,
        ),
{
    if !has_wildcard_spec(pattern) && pattern.len() > 0 && pattern == path {
        assert(path.subrange(0, pattern.len() as int) =~= pattern);
        assert(super::targets::aligned_at(path, pattern, 0));
    }
}

/// A directory entry is kept exactly when it is a regular file, not a
/// backup, and some one of the patterns (any of them, not only the first)
/// matches its name.
pub proof fn lemma_keep_entry_any_pattern(
    name: OsTextModel,
    is_file: bool,
    backup_suffix: Option<Seq<char>>,
    patterns: Seq<OsTextModel>,
    i: int,
)
    ensures
        0 <= i < patterns.len() && is_file && !is_backup_name(name.bytes, backup_suffix)
            && target_match_spec(patterns[i], name) ==> keep_entry_spec(
            name,
            is_file,
            backup_suffix,
            patterns,
        ),
        keep_entry_spec(name, is_file, backup_suffix, patterns) ==> is_file && !is_backup_name(
            name.bytes,
            backup_suffix,
        ) && exists|j: int| 0 <= j < patterns.len() && #[trigger] target_match_spec(patterns[j], name),
{
}

} // verus!
