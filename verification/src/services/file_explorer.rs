//! Directory listings for `@` file references: the path computations around
//! the listing, which the application performs.

use crate::shared::text::{chars_of, string_of, subvec};
use vstd::prelude::*;

verus! {

/// A path as typed: either used as it is, or relative to the home directory
/// (it started with `~`, and the rest follows the home path).
pub enum PathRef {
    Plain(String),
    UnderHome(String),
}

/// The directory component of a path, as `std::path::Path::parent` computes
/// it under Unix rules, where `/` is the only separator (`None` for a root or
/// an empty path).
pub uninterp spec fn path_parent(path: Seq<char>) -> Option<Seq<char>>;

/// Wraps `Path::new(path).parent()`, read back as text; the result is named
/// `path_parent`. The parent of a path given as UTF-8 text is UTF-8 too.
#[verifier::external_body]
fn parent_of(path: &str) -> (r: Option<String>)
    ensures
        match r {
            Some(p) => path_parent(path@) == Some(p@),
            None => path_parent(path@) is None,
        },
{
    std::path::Path::new(path).parent().map(|p| p.to_string_lossy().into_owned())
}

/// Whether `a` and `b` name the same path as `std::path::Path`'s `==` decides
/// it: component by component, so that repeated separators and `.`
/// components inside a path make no difference (Unix rules, where `/` is the
/// only separator).
pub uninterp spec fn same_path(a: Seq<char>, b: Seq<char>) -> bool;

/// Wraps `Path::new(a) == Path::new(b)`; the result is named `same_path`.
#[verifier::external_body]
pub(crate) fn paths_equal(a: &str, b: &str) -> (r: bool)
    ensures
        r == same_path(a@, b@),
{
    std::path::Path::new(a) == std::path::Path::new(b)
}

/// `path`, or `.` when it is empty.
pub open spec fn normalized(path: Seq<char>) -> Seq<char> {
    if path.len() == 0 {
        seq!['.']
    } else {
        path
    }
}

/// The directory to list for `path`: the path itself when it names a
/// directory, else its parent, else the root.
pub open spec fn listing_root(path: Seq<char>, is_dir: bool) -> Seq<char> {
    if is_dir {
        path
    } else {
        match path_parent(path) {
            Some(p) => p,
            None => seq!['/'],
        }
    }
}

/// How an entry is offered: its path, with a trailing `/` for a directory.
pub open spec fn entry_label(path: Seq<char>, is_dir: bool) -> Seq<char> {
    if is_dir {
        path.push('/')
    } else {
        path
    }
}

/// Splits a leading `~` off `path`.
pub open spec fn path_ref_of(path: Seq<char>) -> (bool, Seq<char>) {
    if path.len() > 0 && path[0] == '~' {
        (true, path.subrange(1, path.len() as int))
    } else {
        (false, path)
    }
}

/// Splits a leading `~` off `path`.
pub fn path_ref(path: &str) -> (r: PathRef)
    ensures
        match r {
            PathRef::Plain(p) => !path_ref_of(path@).0 && p@ == path_ref_of(path@).1,
            PathRef::UnderHome(rest) => path_ref_of(path@).0 && rest@ == path_ref_of(path@).1,
        },
{
    let chars = chars_of(path);
    if chars.len() > 0 && chars[0] == '~' {
        PathRef::UnderHome(string_of(&subvec(&chars, 1, chars.len())))
    } else {
        PathRef::Plain(string_of(&chars))
    }
}

pub struct FileExplorer;

impl FileExplorer {
    pub fn new() -> (r: Self) {
        FileExplorer
    }

    /// `path`, or `.` when it is empty.
    pub fn normalize_path(&self, path: &str) -> (r: String)
        ensures
            r@ == normalized(path@),
    {
        let chars = chars_of(path);
        if chars.len() == 0 {
            let dot: Vec<char> = vec!['.'];
            assert(dot@ =~= seq!['.']);
            string_of(&dot)
        } else {
            string_of(&chars)
        }
    }

    /// The directory to list for the normalized path `path`, `is_dir` telling
    /// whether it names a directory.
    pub fn root_dir(&self, path: &str, is_dir: bool) -> (r: String)
        ensures
            r@ == listing_root(path@, is_dir),
    {
        if is_dir {
            string_of(&chars_of(path))
        } else {
            match parent_of(path) {
                Some(parent) => parent,
                None => {
                    let root: Vec<char> = vec!['/'];
                    assert(root@ =~= seq!['/']);
                    string_of(&root)
                },
            }
        }
    }

    /// An entry as offered: with a trailing `/` when it is a directory.
    pub fn entry_label(&self, path: String, is_dir: bool) -> (r: String)
        ensures
            r@ == entry_label(path@, is_dir),
    {
        if is_dir {
            let mut chars = chars_of(path.as_str());
            chars.push('/');
            string_of(&chars)
        } else {
            path
        }
    }
}

} // verus!
