//! Filesystem paths as the policy engine sees them: text in, text out.
//!
//! The lexical operations and the canonicalization are the standard
//! library's; each is reached through one function of this module, whose
//! contract is believed and not proved. The lexical ones depend on the text
//! alone, under the path conventions of the platform the library is built
//! for; their results get a name each. What the policy does with the results
//! is proved in terms of those names.

use vstd::prelude::*;
use crate::text::{chars_of, opt_text, replace_char, string_of, with_char_replaced};

verus! {

/// The operating system whose path conventions apply.
#[derive(Clone, Copy, Debug, PartialEq, Eq, Structural)]
pub enum Platform {
    Windows,
    MacOs,
    Linux,
}

/// A configured path pattern in the textual form of the platform: on Windows
/// every forward slash becomes a backslash, elsewhere every backslash becomes
/// a forward slash.
pub open spec fn normalized(pattern: Seq<char>, platform: Platform) -> Seq<char> {
    match platform {
        Platform::Windows => with_char_replaced(pattern, '/', '\\'),
        _ => with_char_replaced(pattern, '\\', '/'),
    }
}

/// Rewrites the separators of `pattern` to those of `platform`.
pub fn normalize_separators(pattern: &str, platform: Platform) -> (text: String)
    ensures
        text@ == normalized(pattern@, platform),
{
    match platform {
        Platform::Windows => replace_char(pattern, '/', '\\'),
        _ => replace_char(pattern, '\\', '/'),
    }
}

/// Names what `Path::parent` returns for a path: the path without its final
/// component, or `None` when it ends in a root or prefix or is empty.
pub uninterp spec fn parent_of(path: Seq<char>) -> Option<Seq<char>>;

/// Names what `Path::file_name` returns for a path: its final component when
/// that is a normal file or directory name, `None` otherwise.
pub uninterp spec fn file_name_of(path: Seq<char>) -> Option<Seq<char>>;

/// Names what `Path::join` returns: `base` extended by `leaf`.
pub uninterp spec fn joined(base: Seq<char>, leaf: Seq<char>) -> Seq<char>;

/// Names what `Path::starts_with` returns: whether `base` is a prefix of
/// `path`, whole components only.
pub uninterp spec fn path_has_prefix(path: Seq<char>, base: Seq<char>) -> bool;

/// Calls `Path::canonicalize`, which resolves symlinks and relative segments
/// against the filesystem. The outcome depends on what is on disk, so nothing
/// is claimed of it; `None` stands for any failure. A canonical path that is
/// not valid Unicode cannot be held as text unaltered and is a failure too.
#[verifier::external_body]
pub(crate) fn canonicalize(path: &str) -> (canonical: Option<String>) {
    match std::path::Path::new(path).canonicalize() {
        Ok(found) => match found.to_str() {
            Some(text) => Some(text.to_owned()),
            None => None,
        },
        Err(_) => None,
    }
}

/// Calls `Path::parent`. The result depends on the text of the path alone;
/// the contract only gives it its name. The result is a part of `path`, so
/// turning it into text alters nothing.
#[verifier::external_body]
pub(crate) fn path_parent(path: &str) -> (parent: Option<String>)
    ensures
        opt_text(parent) == parent_of(path@),
{
    match std::path::Path::new(path).parent() {
        Some(found) => Some(found.to_string_lossy().into_owned()),
        None => None,
    }
}

/// Calls `Path::file_name`. The result depends on the text of the path alone;
/// the contract only gives it its name. The result is a part of `path`, so
/// turning it into text alters nothing.
#[verifier::external_body]
pub(crate) fn path_file_name(path: &str) -> (name: Option<String>)
    ensures
        opt_text(name) == file_name_of(path@),
{
    match std::path::Path::new(path).file_name() {
        Some(found) => Some(found.to_string_lossy().into_owned()),
        None => None,
    }
}

/// Calls `Path::join`. The result depends on the two texts alone; the
/// contract only gives it its name. The result is made of the two texts, so
/// turning it into text alters nothing.
#[verifier::external_body]
pub(crate) fn path_join(base: &str, leaf: &str) -> (path: String)
    ensures
        path@ == joined(base@, leaf@),
{
    std::path::Path::new(base).join(leaf).to_string_lossy().into_owned()
}

/// Calls `Path::starts_with`. The result depends on the two texts alone; the
/// contract only gives it its name.
#[verifier::external_body]
pub(crate) fn path_starts_with(path: &str, base: &str) -> (prefixed: bool)
    ensures
        prefixed == path_has_prefix(path@, base@),
{
    std::path::Path::new(path).starts_with(base)
}

/// The index of the last dot in `name`, or -1 when it holds none.
pub open spec fn last_dot(name: Seq<char>) -> int
    decreases name.len(),
{
    if name.len() == 0 {
        -1
    } else if name.last() == '.' {
        name.len() - 1
    } else {
        last_dot(name.drop_last())
    }
}

/// A file name without its extension: the part before the last dot. A name
/// without a dot, a name whose only dot comes first, and the name of two dots
/// are their own stems.
pub open spec fn stem_of(name: Seq<char>) -> Seq<char> {
    if last_dot(name) <= 0 || name == seq!['.', '.'] {
        name
    } else {
        name.take(last_dot(name))
    }
}

/// The file stem of a path: the stem of its file name, or `None` when the
/// path has no file name.
pub open spec fn file_stem_of(path: Seq<char>) -> Option<Seq<char>> {
    match file_name_of(path) {
        Some(name) => Some(stem_of(name)),
        None => None,
    }
}

/// The stem of a file name.
pub fn stem_of_name(name: &str) -> (stem: String)
    ensures
        stem@ == stem_of(name@),
{
    let chars = chars_of(name);
    let mut end: usize = chars.len();
    assert(chars@.take(end as int) =~= chars@);
    while end > 0 && chars[end - 1] != '.'
        invariant
            0 <= end <= chars.len(),
            chars@ == name@,
            last_dot(name@) == last_dot(name@.take(end as int)),
        decreases end,
    {
        assert(name@.take(end as int).drop_last() =~= name@.take(end - 1));
        end -= 1;
    }
    assert(last_dot(name@) == end - 1) by {
        if end > 0 {
            assert(name@.take(end as int).last() == name@[end - 1]);
        }
    }
    let two_dots = chars.len() == 2 && chars[0] == '.' && chars[1] == '.';
    assert(two_dots == (name@ == seq!['.', '.'])) by {
        if two_dots {
            assert(name@ =~= seq!['.', '.']);
        }
        if name@ == seq!['.', '.'] {
            assert(seq!['.', '.'].len() == 2);
            assert(seq!['.', '.'][0] == '.');
            assert(seq!['.', '.'][1] == '.');
        }
    }
    if end <= 1 || two_dots {
        string_of(&chars, 0, chars.len())
    } else {
        string_of(&chars, 0, end - 1)
    }
}

/// The file stem of a path, or `None` when the path has no file name.
pub fn file_stem(path: &str) -> (stem: Option<String>)
    ensures
        opt_text(stem) == file_stem_of(path@),
{
    match path_file_name(path) {
        Some(name) => Some(stem_of_name(name.as_str())),
        None => None,
    }
}

/// The final component that is appended to a canonical parent: the file name
/// of `path`, or the empty text when it has none.
pub open spec fn leaf_of(path: Seq<char>) -> Seq<char> {
    match file_name_of(path) {
        Some(name) => name,
        None => Seq::<char>::empty(),
    }
}

/// The canonical form of `path`, given what canonicalization returned for the
/// path itself (`full`) and for its parent directory (`parent`).
///
/// The path's own canonical form is taken when there is one. Otherwise the
/// leaf is appended to the parent's canonical form. A path without a parent,
/// or whose parent does not resolve either, has no canonical form.
pub open spec fn resolved_path(
    path: Seq<char>,
    full: Option<Seq<char>>,
    parent: Option<Seq<char>>,
) -> Option<Seq<char>> {
    match full {
        Some(canonical) => Some(canonical),
        None => match (parent_of(path), parent) {
            (Some(_), Some(dir)) => Some(joined(dir, leaf_of(path))),
            _ => None,
        },
    }
}

/// Combines the outcomes of canonicalization into the canonical form of
/// `path`: `full` is the outcome for the path itself, `parent` the outcome
/// for its parent directory.
pub fn resolve_from(path: &str, full: Option<String>, parent: Option<String>) -> (resolved:
    Option<String>)
    ensures
        opt_text(resolved) == resolved_path(path@, opt_text(full), opt_text(parent)),
{
    match full {
        Some(canonical) => Some(canonical),
        None => {
            if path_parent(path).is_none() {
                return None;
            }
            match parent {
                Some(dir) => {
                    let leaf = match path_file_name(path) {
                        Some(name) => name,
                        None => String::new(),
                    };
                    Some(path_join(dir.as_str(), leaf.as_str()))
                },
                None => None,
            }
        },
    }
}

/// Resolves `path` against the filesystem: canonicalizes it, and where that
/// fails canonicalizes its parent directory and appends the file name.
///
/// Whatever the filesystem answers, the result is `resolved_path` of those
/// answers; `None` means that neither the path nor its parent resolved.
pub fn resolve_path(path: &str) -> (resolved: Option<String>)
    ensures
        exists|full: Option<Seq<char>>, parent: Option<Seq<char>>|
            opt_text(resolved) == resolved_path(path@, full, parent),
{
    let full = canonicalize(path);
    let parent = if full.is_some() {
        None
    } else {
        match path_parent(path) {
            Some(dir) => canonicalize(dir.as_str()),
            None => None,
        }
    };
    resolve_from(path, full, parent)
}

} // verus!
