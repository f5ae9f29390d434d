//! Pure halves of the three pieces of file work. The dialogs and the
//! filesystem calls live outside this crate; these functions turn their
//! raw outcomes into the results the state machine is fed with.

use vstd::prelude::*;

use crate::error::{Error, IoErrorKind};

verus! {

/// Outcome of a file dialog: the chosen path, or `DialogClosed` when the
/// user dismissed the dialog without choosing.
pub fn picked_file(choice: Option<String>) -> (r: Result<String, Error>)
    ensures
        match choice {
            Some(p) => r matches Ok(q) && q@ == p@,
            None => r matches Err(e) && e == Error::DialogClosed,
        },
{
    match choice {
        Some(p) => Ok(p),
        None => Err(Error::DialogClosed),
    }
}

/// Outcome of loading `path`: the read text paired with the path it came
/// from, read failures mapped to `IOFailed`.
pub fn load_file_outcome(path: String, read: Result<String, IoErrorKind>) -> (r: Result<
    (String, String),
    Error,
>)
    ensures
        match read {
            Ok(text) => r matches Ok(pt) && pt.0@ == path@ && pt.1@ == text@,
            Err(k) => r matches Err(e) && e == Error::IOFailed(k),
        },
{
    match read {
        Ok(text) => Ok((path, text)),
        Err(k) => Err(Error::IOFailed(k)),
    }
}

/// Outcome of writing to `path`: the path on success, write failures
/// mapped to `IOFailed`.
pub fn save_file_outcome(path: String, write: Result<(), IoErrorKind>) -> (r: Result<
    String,
    Error,
>)
    ensures
        match write {
            Ok(u) => r matches Ok(p) && p@ == path@,
            Err(k) => r matches Err(e) && e == Error::IOFailed(k),
        },
{
    match write {
        Ok(_) => Ok(path),
        Err(k) => Err(Error::IOFailed(k)),
    }
}

/// The path of the file a fresh editor loads at start: `src/main.rs`
/// under the given project directory.
pub fn default_file(project_dir: &str) -> (r: String)
    ensures
        r@ == project_dir@ + "/src/main.rs"@,
{
    let s = String::from_str(project_dir);
    s.concat("/src/main.rs")
}

} // verus!
