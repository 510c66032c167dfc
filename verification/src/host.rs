//! What the library asks of the machine it runs on. The answers depend on
//! the file system and the environment, so nothing is promised of them:
//! the functions that ask state what holds whatever came back.
use vstd::prelude::*;

verus! {

/// `std::path::Path::exists`: whether something is at the path.
#[verifier::external_body]
pub(crate) fn path_exists(path: &str) -> bool {
    std::path::Path::new(path).exists()
}

/// `dirs::config_dir`: the user's configuration directory, when one can
/// be determined (from `$XDG_CONFIG_HOME` or `$HOME/.config`). A
/// directory whose name is not UTF-8 is taken as none.
#[verifier::external_body]
pub(crate) fn config_dir() -> Option<String> {
    match dirs::config_dir() {
        Some(p) => p.into_os_string().into_string().ok(),
        None => None,
    }
}

} // verus!
