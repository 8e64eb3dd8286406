//! Configuration sources named by their file names: the stem that names a
//! run, the extension that marks a configuration file, and the selection of
//! the configuration files among the entries of a directory.
//!
//! A file name splits at its last `.`, as `std::path::Path::file_stem` and
//! `std::path::Path::extension` split it: a name without a dot, a name whose
//! only dot leads it, and `..` have no extension and are their own stem.
use vstd::prelude::*;

verus! {

/// The position of the last `.` in `s`, or -1 when there is none.
pub open spec fn last_dot(s: Seq<char>) -> int
    decreases s.len(),
{
    if s.len() == 0 {
        -1
    } else if s.last() == '.' {
        s.len() - 1
    } else {
        last_dot(s.drop_last())
    }
}

/// Whether `s` is the parent-directory name `..`.
pub open spec fn is_parent_name(s: Seq<char>) -> bool {
    s.len() == 2 && s[0] == '.' && s[1] == '.'
}

/// Whether the file name has an extension, that is a dot after its first character.
pub open spec fn has_extension(name: Seq<char>) -> bool {
    !is_parent_name(name) && last_dot(name) > 0
}

/// The file name without its extension.
pub open spec fn stem_of(name: Seq<char>) -> Seq<char> {
    if has_extension(name) {
        name.subrange(0, last_dot(name))
    } else {
        name
    }
}

/// The file name's extension, without the dot.
pub open spec fn extension_of(name: Seq<char>) -> Option<Seq<char>> {
    if has_extension(name) {
        Some(name.subrange(last_dot(name) + 1, name.len() as int))
    } else {
        None
    }
}

/// The extension that marks a configuration source.
pub open spec fn config_extension() -> Seq<char> {
    seq!['c', 'o', 'n', 'f']
}

/// Whether a directory entry with this file name is a configuration source;
/// an entry without a file name is not.
pub open spec fn is_config_entry(name: Option<String>) -> bool {
    match name {
        Some(n) => extension_of(n@) == Some(config_extension()),
        None => false,
    }
}

/// The positions of the configuration sources among the first `n` entries,
/// in the order of the entries.
pub open spec fn config_positions(names: Seq<Option<String>>, n: int) -> Seq<int>
    decreases n,
{
    if n <= 0 {
        Seq::empty()
    } else if is_config_entry(names[n - 1]) {
        config_positions(names, n - 1).push(n - 1)
    } else {
        config_positions(names, n - 1)
    }
}

proof fn lemma_last_dot_bounds(s: Seq<char>)
    ensures
        -1 <= last_dot(s) < s.len(),
        last_dot(s) >= 0 ==> s[last_dot(s)] == '.',
    decreases s.len(),
{
    if s.len() > 0 && s.last() != '.' {
        lemma_last_dot_bounds(s.drop_last());
    }
}

/// Finds the last `.` of `s`.
fn find_last_dot(s: &str) -> (r: Option<usize>)
    ensures
        match r {
            Some(i) => i as int == last_dot(s@),
            None => last_dot(s@) == -1,
        },
{
    let n = s.unicode_len();
    let mut i: usize = n;
    assert(s@.subrange(0, n as int) =~= s@);
    while i > 0
        invariant
            i <= n,
            n == s@.len(),
            last_dot(s@) == last_dot(s@.subrange(0, i as int)),
        decreases i,
    {
        if s.get_char(i - 1) == '.' {
            return Some(i - 1);
        }
        assert(s@.subrange(0, i - 1) =~= s@.subrange(0, i as int).drop_last());
        i = i - 1;
    }
    None
}

/// Where the file name splits into stem and extension, if it has an extension.
fn split_point(name: &str) -> (r: Option<usize>)
    ensures
        match r {
            Some(d) => has_extension(name@) && d as int == last_dot(name@),
            None => !has_extension(name@),
        },
{
    proof {
        lemma_last_dot_bounds(name@);
    }
    let n = name.unicode_len();
    if n == 2 && name.get_char(0) == '.' && name.get_char(1) == '.' {
        return None;
    }
    match find_last_dot(name) {
        Some(d) => {
            if d > 0 {
                Some(d)
            } else {
                None
            }
        },
        None => None,
    }
}

/// The stem of a file name: the name that a run defined by that file gets.
pub fn file_stem(name: &str) -> (r: String)
    ensures
        r@ == stem_of(name@),
{
    proof {
        lemma_last_dot_bounds(name@);
    }
    match split_point(name) {
        Some(d) => name.substring_char(0, d).to_owned(),
        None => name.to_owned(),
    }
}

/// The extension of a file name, without its dot.
pub fn file_extension(name: &str) -> (r: Option<String>)
    ensures
        match r {
            Some(e) => extension_of(name@) == Some(e@),
            None => extension_of(name@) is None,
        },
{
    proof {
        lemma_last_dot_bounds(name@);
    }
    let n = name.unicode_len();
    match split_point(name) {
        Some(d) => Some(name.substring_char(d + 1, n).to_owned()),
        None => None,
    }
}

/// Whether a file of this name is a configuration source: its extension is `conf`.
pub fn is_config_name(name: &str) -> (r: bool)
    ensures
        r == (extension_of(name@) == Some(config_extension())),
{
    match file_extension(name) {
        Some(e) => {
            let ok = e.unicode_len() == 4 && e.as_str().get_char(0) == 'c' && e.as_str().get_char(1) == 'o'
                && e.as_str().get_char(2) == 'n' && e.as_str().get_char(3) == 'f';
            assert(ok ==> e@ =~= config_extension());
            ok
        },
        None => false,
    }
}

/// The positions, in listing order, of the entries of a directory listing
/// that are configuration sources. Each entry is given by its file name,
/// `None` for an entry that has none.
pub fn select_config_sources(names: &Vec<Option<String>>) -> (r: Vec<usize>)
    ensures
        r@.map_values(|i: usize| i as int) == config_positions(names@, names@.len() as int),
{
    let mut r: Vec<usize> = Vec::new();
    let mut i: usize = 0;
    while i < names.len()
        invariant
            i <= names@.len(),
            r@.map_values(|k: usize| k as int) == config_positions(names@, i as int),
        decreases names@.len() - i,
    {
        let selected = match &names[i] {
            Some(n) => is_config_name(n.as_str()),
            None => false,
        };
        let ghost before = r@;
        if selected {
            r.push(i);
            assert(r@.map_values(|k: usize| k as int) =~= before.map_values(|k: usize| k as int).push(i as int));
        }
        i = i + 1;
    }
    r
}

} // verus!
