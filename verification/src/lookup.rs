//! The home directory as the running process sees it.
//!
//! These are the only items of the expansion that are taken on trust: each
//! makes one call that Verus cannot look into, and none promises anything
//! about what comes back. All that is decided from their answers is decided
//! in verified code.

use std::path::PathBuf;
use vstd::prelude::*;

verus! {

/// `std::path::PathBuf`, carried through verified code as an opaque value.
#[verifier::external_type_specification]
#[verifier::external_body]
pub struct ExPathBuf(std::path::PathBuf);

/// Calls `dirs::home_dir`.
///
/// The answer is read from the process environment and the user database, so
/// two calls may differ and no property of the result is claimed.
#[verifier::external_body]
pub(crate) fn home_dir() -> (home: Option<PathBuf>) {
    dirs::home_dir()
}

/// Calls `Path::to_str` and copies the text it yields.
///
/// `None` stands for a path that is not valid Unicode. Nothing is claimed of
/// the text, since the path itself is opaque here.
#[verifier::external_body]
pub(crate) fn path_text(path: &PathBuf) -> (text: Option<String>) {
    match path.to_str() {
        Some(text) => Some(text.to_owned()),
        None => None,
    }
}

/// Calls `Path::components` and copies each component's bytes, in order.
///
/// Nothing is claimed of the segments, since the path itself is opaque here.
#[verifier::external_body]
pub(crate) fn path_segments(path: &PathBuf) -> (segments: Vec<Vec<u8>>) {
    path.components().map(|part| part.as_os_str().as_encoded_bytes().to_vec()).collect()
}

} // verus!
