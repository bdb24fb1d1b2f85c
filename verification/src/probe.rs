//! Binary discovery: the detection primitives every Step's check uses. The
//! results depend on the machine's search path, so nothing is promised of
//! them; the decision logic takes them as they come.

use vstd::prelude::*;

verus! {

/// Relies on which::which: looks a binary up on the search path and returns
/// an absolute path to it, or nothing when the lookup fails.
#[verifier::external_body]
pub(crate) fn locate(name: &str) -> (r: Option<String>) {
    match which::which(name) {
        Ok(p) => Some(p.to_string_lossy().into_owned()),
        Err(_) => None,
    }
}

/// Relies on which::which_in: looks a binary up in the given search paths,
/// resolving relative candidates against `cwd`.
#[verifier::external_body]
pub(crate) fn locate_in(name: &str, paths: Option<&String>, cwd: &str) -> (r: Option<String>) {
    match which::which_in(name, paths, cwd) {
        Ok(p) => Some(p.to_string_lossy().into_owned()),
        Err(_) => None,
    }
}

/// Relies on dirs::home_dir: the platform's home directory, if the platform
/// reports one.
#[verifier::external_body]
pub(crate) fn home_dir_path() -> (r: Option<String>) {
    match dirs::home_dir() {
        Some(p) => Some(p.to_string_lossy().into_owned()),
        None => None,
    }
}

} // verus!
