//! Full downloads of a collection: the folder the download is staged in.

use vstd::prelude::*;
use vstd::string::*;
use crate::error::AnkiError;

verus! {

/// What `Path::parent` gives for the path `p`, as text.
pub uninterp spec fn path_parent(p: Seq<char>) -> Option<Seq<char>>;

/// Calls `std::path::Path::parent` on a path given as text and turns the
/// parent back into text. Its documentation says that the empty path has
/// no parent.
#[verifier::external_body]
fn parent_of(path: &str) -> (r: Option<String>)
    ensures
        match path_parent(path@) {
            Some(p) => r matches Some(s) && s@ == p,
            None => r is None,
        },
        path@.len() == 0 ==> r is None,
{
    std::path::Path::new(path).parent().map(|p| p.to_string_lossy().into_owned())
}

/// The message given when a collection's folder cannot be found.
pub open spec fn no_folder_message() -> Seq<char> {
    "couldn't get col_folder"@
}

/// The folder of a collection, given the parent of its path: a path
/// without a parent is invalid.
pub fn folder_from_parent(parent: Option<String>) -> (r: Result<String, AnkiError>)
    ensures
        match parent {
            Some(p) => r matches Ok(s) && s == p,
            None => r matches Err(e) && e matches AnkiError::InvalidInput { message }
                && message@ == no_folder_message(),
        },
{
    match parent {
        Some(p) => Ok(p),
        None => Err(AnkiError::invalid_input(String::from_str("couldn't get col_folder"))),
    }
}

/// The folder that holds the collection file at `col_path`, where a full
/// download is staged before it replaces the file.
pub fn collection_folder(col_path: &str) -> (r: Result<String, AnkiError>)
    ensures
        match path_parent(col_path@) {
            Some(p) => r matches Ok(s) && s@ == p,
            None => r matches Err(e) && e matches AnkiError::InvalidInput { message }
                && message@ == no_folder_message(),
        },
        col_path@.len() == 0 ==> r is Err,
{
    folder_from_parent(parent_of(col_path))
}

} // verus!
