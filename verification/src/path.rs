//! Joining a directory and a file name into one path. The result is text
//! only: nothing is normalised and the file system is never consulted.

use vstd::prelude::*;
use vstd::string::*;

verus! {

/// The separator between the components of a path.
pub const SEPARATOR: char = '/';

/// A path that starts at the root stands for itself, whatever directory it
/// is joined to.
pub open spec fn is_rooted(path: Seq<char>) -> bool {
    path.len() > 0 && path[0] == SEPARATOR
}

/// `file` as found from `directory`: `file` alone where it is rooted, else
/// `directory`, one separator unless `directory` is empty or already ends in
/// one, and `file`.
pub open spec fn joined(directory: Seq<char>, file: Seq<char>) -> Seq<char> {
    if is_rooted(file) {
        file
    } else if directory.len() == 0 || directory.last() == SEPARATOR {
        directory + file
    } else {
        directory + seq![SEPARATOR] + file
    }
}

/// Joins `directory` and `file` into one path.
pub fn join_path(directory: &str, file: &str) -> (path: String)
    ensures
        path@ == joined(directory@, file@),
{
    let file_len = file.unicode_len();
    if file_len > 0 && file.get_char(0) == SEPARATOR {
        return file.to_owned();
    }
    let mut path = directory.to_owned();
    let directory_len = directory.unicode_len();
    if directory_len > 0 && directory.get_char(directory_len - 1) != SEPARATOR {
        proof {
            reveal_strlit("/");
        }
        path.append("/");
        assert(path@ == directory@ + seq![SEPARATOR]);
    }
    path.append(file);
    path
}

} // verus!
