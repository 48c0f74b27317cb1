//! Which setting names a configuration file: an environment setting and its
//! fallback name, and the project setting that can turn project files off.

use super::targets::copy_bytes;
use vstd::prelude::*;

verus! {

/// A setting's value as a sequence, where it is set.
pub open spec fn setting_view(value: Option<Vec<u8>>) -> Option<Seq<u8>> {
    match value {
        Some(v) => Some(v@),
        None => None,
    }
}

/// Whether a setting is set to a value that is not empty.
pub open spec fn setting_given(value: Option<Seq<u8>>) -> bool {
    value is Some && value->0.len() > 0
}

/// The first of two settings that is set and not empty.
pub open spec fn fallback_spec(primary: Option<Seq<u8>>, fallback: Option<Seq<u8>>) -> Option<Seq<u8>> {
    if setting_given(primary) {
        primary
    } else if setting_given(fallback) {
        fallback
    } else {
        None
    }
}

/// The bytes of the word `none`.
pub open spec fn none_word() -> Seq<u8> {
    seq![110u8, 111u8, 110u8, 101u8]
}

/// The project option file named by the two settings: none where neither
/// names one or where the chosen one is the word `none`.
pub open spec fn project_setting_spec(primary: Option<Seq<u8>>, fallback: Option<Seq<u8>>) -> Option<Seq<u8>> {
    match fallback_spec(primary, fallback) {
        Some(name) => if name == none_word() {
            None
        } else {
            Some(name)
        },
        None => None,
    }
}

fn is_given(value: &Option<Vec<u8>>) -> (r: bool)
    ensures
        r == setting_given(setting_view(*value)),
{
    match value {
        Some(v) => v.len() > 0,
        None => false,
    }
}

/// The value of `primary` where it is set and not empty, else that of
/// `fallback` where it is set and not empty.
pub fn env_fallback(primary: Option<Vec<u8>>, fallback: Option<Vec<u8>>) -> (r: Option<Vec<u8>>)
    ensures
        setting_view(r) == fallback_spec(setting_view(primary), setting_view(fallback)),
{
    if is_given(&primary) {
        primary
    } else if is_given(&fallback) {
        fallback
    } else {
        None
    }
}

fn is_none_word(name: &Vec<u8>) -> (r: bool)
    ensures
        r == (name@ == none_word()),
{
    let r = name.len() == 4 && name[0] == 110u8 && name[1] == 111u8 && name[2] == 110u8 && name[3]
        == 101u8;
    proof {
        if r {
            assert(name@ =~= none_word());
        }
    }
    r
}

/// The project option file named by the project settings, where one is
/// named and it is not `none`.
pub fn project_options_name(primary: Option<Vec<u8>>, fallback: Option<Vec<u8>>) -> (r: Option<Vec<u8>>)
    ensures
        setting_view(r) == project_setting_spec(setting_view(primary), setting_view(fallback)),
{
    match env_fallback(primary, fallback) {
        Some(name) => if is_none_word(&name) {
            None
        } else {
            Some(name)
        },
        None => None,
    }
}

/// The path beside which the project option file is looked for: the first
/// target, else the standard-input path, else none.
pub open spec fn search_anchor_spec(paths: Seq<Seq<u8>>, stdin_path: Option<Seq<u8>>) -> Option<Seq<u8>> {
    if paths.len() > 0 {
        Some(paths[0])
    } else {
        stdin_path
    }
}

/// The path beside which the project option file is looked for (see
/// `search_anchor_spec`).
pub fn search_anchor(paths: &Vec<Vec<u8>>, stdin_path: &Option<Vec<u8>>) -> (r: Option<Vec<u8>>)
    ensures
        setting_view(r) == search_anchor_spec(paths@.map_values(|p: Vec<u8>| p@), setting_view(*stdin_path)),
{
    if paths.len() > 0 {
        Some(copy_bytes(paths[0].as_slice()))
    } else {
        match stdin_path {
            Some(p) => Some(copy_bytes(p.as_slice())),
            None => None,
        }
    }
}

/// The directory where the search for the project option file starts: the
/// anchor's parent directory where it has a non-empty one, else `.`.
pub open spec fn search_start_spec(parent: Option<Seq<u8>>) -> Seq<u8> {
    if setting_given(parent) {
        parent->0
    } else {
        seq![46u8]
    }
}

/// The directory where the search for the project option file starts (see
/// `search_start_spec`); `parent` is the anchor's parent directory, if any.
pub fn search_start_dir(parent: Option<Vec<u8>>) -> (r: Vec<u8>)
    ensures
        r@ == search_start_spec(setting_view(parent)),
{
    if is_given(&parent) {
        match parent {
            Some(p) => p,
            None => vec![46u8],
        }
    } else {
        vec![46u8]
    }
}

/// The bytes of `.astylerc`.
pub open spec fn astylerc_name() -> Seq<u8> {
    seq![46u8, 97u8, 115u8, 116u8, 121u8, 108u8, 101u8, 114u8, 99u8]
}

/// The bytes of `_astylerc`, the older name of `.astylerc`.
pub open spec fn old_astylerc_name() -> Seq<u8> {
    seq![95u8, 97u8, 115u8, 116u8, 121u8, 108u8, 101u8, 114u8, 99u8]
}

/// The file names looked for in each directory when searching for the
/// project option file `name`: `name` itself, and for `.astylerc` also
/// `_astylerc`.
pub open spec fn project_file_names_spec(name: Seq<u8>) -> Seq<Seq<u8>> {
    if name == astylerc_name() {
        seq![name, old_astylerc_name()]
    } else {
        seq![name]
    }
}

/// The file names looked for in each directory (see `project_file_names_spec`).
pub fn project_file_names(name: &[u8]) -> (r: Vec<Vec<u8>>)
    ensures
        r@.map_values(|v: Vec<u8>| v@) == project_file_names_spec(name@),
{
    let mut names: Vec<Vec<u8>> = Vec::new();
    names.push(copy_bytes(name));
    let old: Vec<u8> = vec![95u8, 97u8, 115u8, 116u8, 121u8, 108u8, 101u8, 114u8, 99u8];
    let is_astylerc = name.len() == 9 && name[0] == 46u8 && name[1] == 97u8 && name[2] == 115u8
        && name[3] == 116u8 && name[4] == 121u8 && name[5] == 108u8 && name[6] == 101u8 && name[7]
        == 114u8 && name[8] == 99u8;
    proof {
        if is_astylerc {
            assert(name@ =~= astylerc_name());
        } else if name@ == astylerc_name() {
            assert(name@[0] == 46u8 && name@[8] == 99u8);
        }
    }
    if is_astylerc {
        names.push(old);
        assert(old@ =~= old_astylerc_name());
        assert(names@.map_values(|v: Vec<u8>| v@) =~= project_file_names_spec(name@));
    } else {
        assert(names@.map_values(|v: Vec<u8>| v@) =~= project_file_names_spec(name@));
    }
    names
}

} // verus!
