//! File-name rules and directory checks.
//!
//! A file name is the last component of a path, as plain text. The rules for its
//! stem and extension are those of `std::path::Path` on such a component.

use crate::error::{ConvertError, IoFailure};
use crate::text::{lowercase, same_text, to_lowercase};
use vstd::prelude::*;
use vstd::string::StrSliceExecFns;

verus! {

/// The position of the last dot of `name`, or -1 where it has none.
pub open spec fn last_dot(name: Seq<char>) -> int
    decreases name.len(),
{
    if name.len() == 0 {
        -1
    } else if name.last() == '.' {
        name.len() - 1
    } else {
        last_dot(name.drop_last())
    }
}

/// Whether `name` splits into a stem and an extension: it has a dot behind its
/// first character and is not the parent-directory name `..`.
pub open spec fn has_extension(name: Seq<char>) -> bool {
    last_dot(name) > 0 && name != seq!['.', '.']
}

/// The extension of a file name: what follows its last dot.
pub open spec fn extension_of(name: Seq<char>) -> Option<Seq<char>> {
    if has_extension(name) {
        Some(name.skip(last_dot(name) + 1))
    } else {
        None
    }
}

/// The stem of a file name: what stands before its last dot, or the whole name
/// where it has no extension.
pub open spec fn stem_of(name: Seq<char>) -> Seq<char> {
    if has_extension(name) {
        name.take(last_dot(name))
    } else {
        name
    }
}

/// The extension by which a file is classified: in lowercase, and empty where
/// the name has none.
pub open spec fn format_key(name: Seq<char>) -> Seq<char> {
    match extension_of(name) {
        Some(ext) => lowercase(ext),
        None => Seq::empty(),
    }
}

/// Whether a lowercase extension names a supported format.
pub open spec fn is_supported_extension(ext: Seq<char>) -> bool {
    ext == "docx"@ || ext == "xlsx"@ || ext == "xls"@
}

/// What a path was found to be on disk.
#[derive(Clone, Copy, Debug, PartialEq, Eq, Structural)]
pub enum PathStatus {
    /// Nothing is at the path.
    Missing,
    /// The path exists and is no directory.
    File,
    /// The path is a directory.
    Directory,
}

/// The last dot of a name is a dot of the name, and no dot stands behind it.
pub proof fn lemma_last_dot_bounds(name: Seq<char>)
    ensures
        -1 <= last_dot(name) < name.len(),
        last_dot(name) >= 0 ==> name[last_dot(name)] == '.',
        forall|i: int| last_dot(name) < i < name.len() ==> name[i] != '.',
    decreases name.len(),
{
    if name.len() > 0 && name.last() != '.' {
        let front = name.drop_last();
        lemma_last_dot_bounds(front);
        assert forall|i: int| last_dot(name) < i < name.len() implies name[i] != '.' by {
            if i < front.len() {
                assert(front[i] == name[i]);
            }
        }
    }
}

/// Finds the last dot of a file name and counts its characters.
fn find_last_dot(name: &str) -> (found: (Option<usize>, usize))
    ensures
        found.1 == name@.len(),
        match found.0 {
            Some(d) => d == last_dot(name@),
            None => last_dot(name@) == -1,
        },
{
    let len = name.unicode_len();
    let mut dot: Option<usize> = None;
    let mut i: usize = 0;
    for c in it: name.chars()
        invariant
            it.seq() == name@,
            len == name@.len(),
            i == it.index(),
            match dot {
                Some(d) => d == last_dot(name@.take(i as int)),
                None => last_dot(name@.take(i as int)) == -1,
            },
    {
        proof {
            assert(name@.take(i + 1).drop_last() == name@.take(i as int));
            assert(name@.take(i + 1).last() == c);
        }
        if c == '.' {
            dot = Some(i);
        }
        i = i + 1;
    }
    proof {
        assert(name@.take(name@.len() as int) == name@);
    }
    (dot, len)
}

/// Tells whether a file name is the parent-directory name `..`.
fn is_parent_name(name: &str) -> (b: bool)
    ensures
        b == (name@ == seq!['.', '.']),
{
    proof {
        reveal_strlit("..");
        assert(".."@ =~= seq!['.', '.']);
    }
    same_text(name, "..")
}

/// The extension of a file name, if it has one.
pub fn file_extension(name: &str) -> (ext: Option<String>)
    ensures
        match ext {
            Some(e) => extension_of(name@) == Some(e@),
            None => extension_of(name@) is None,
        },
{
    let (dot, len) = find_last_dot(name);
    proof {
        lemma_last_dot_bounds(name@);
    }
    match dot {
        Some(d) => {
            if d > 0 && !is_parent_name(name) {
                Some(name.substring_char(d + 1, len).to_owned())
            } else {
                None
            }
        },
        None => None,
    }
}

/// The stem of a file name.
pub fn file_stem(name: &str) -> (stem: String)
    ensures
        stem@ == stem_of(name@),
{
    let (dot, len) = find_last_dot(name);
    proof {
        lemma_last_dot_bounds(name@);
    }
    match dot {
        Some(d) => {
            if d > 0 && !is_parent_name(name) {
                name.substring_char(0, d).to_owned()
            } else {
                name.to_owned()
            }
        },
        None => name.to_owned(),
    }
}

/// The lowercase extension of a file name, empty where it has none.
pub fn lowercase_extension(name: &str) -> (key: String)
    ensures
        key@ == format_key(name@),
{
    match file_extension(name) {
        Some(ext) => to_lowercase(ext.as_str()),
        None => String::new(),
    }
}

/// The extensions of the supported formats.
pub fn get_supported_extensions() -> (exts: Vec<&'static str>)
    ensures
        exts@.len() == 3,
        exts@[0]@ == "docx"@,
        exts@[1]@ == "xlsx"@,
        exts@[2]@ == "xls"@,
{
    let mut exts: Vec<&'static str> = Vec::new();
    exts.push("docx");
    exts.push("xlsx");
    exts.push("xls");
    exts
}

/// Tells whether a lowercase extension is one of the supported ones.
pub fn supports_extension(ext: &str) -> (b: bool)
    ensures
        b == is_supported_extension(ext@),
{
    let exts = get_supported_extensions();
    let mut i: usize = 0;
    while i < exts.len()
        invariant
            i <= exts@.len(),
            exts@.len() == 3,
            exts@[0]@ == "docx"@,
            exts@[1]@ == "xlsx"@,
            exts@[2]@ == "xls"@,
            forall|j: int| 0 <= j < i ==> exts@[j]@ != ext@,
        decreases exts@.len() - i,
    {
        if same_text(exts[i], ext) {
            return true;
        }
        i = i + 1;
    }
    false
}

/// Tells whether a file has a supported extension, whatever its case.
pub fn is_supported_file(file_name: &str) -> (b: bool)
    ensures
        b == (extension_of(file_name@) is Some && is_supported_extension(format_key(file_name@))),
{
    match file_extension(file_name) {
        Some(ext) => {
            let key = to_lowercase(ext.as_str());
            supports_extension(key.as_str())
        },
        None => false,
    }
}

/// Accepts a path that is a directory and tells what is wrong with any other.
pub fn validate_directory(status: PathStatus) -> (r: Result<(), ConvertError>)
    ensures
        status == PathStatus::Directory <==> r is Ok,
        status == PathStatus::Missing ==> r == Err::<(), ConvertError>(
            ConvertError::IoError(IoFailure::DirectoryNotFound),
        ),
        status == PathStatus::File ==> r == Err::<(), ConvertError>(
            ConvertError::IoError(IoFailure::NotADirectory),
        ),
{
    match status {
        PathStatus::Missing => Err(ConvertError::IoError(IoFailure::DirectoryNotFound)),
        PathStatus::File => Err(ConvertError::IoError(IoFailure::NotADirectory)),
        PathStatus::Directory => Ok(()),
    }
}

} // verus!
