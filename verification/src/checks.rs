//! Platform preconditions: the tool must run on Gentoo Linux, as root.

use vstd::prelude::*;

use crate::text::str_eq;

verus! {

/// Why a run must not proceed.
pub enum CheckError {
    /// The host is not a Gentoo Linux system.
    NotGentoo,
    /// The process does not run with root privileges.
    NotRoot,
}

/// The distribution name identifies Gentoo Linux. `None` stands for a
/// host whose distribution name could not be read.
pub open spec fn spec_is_gentoo(name: Option<Seq<char>>) -> bool {
    name == Some("Gentoo"@)
}

/// Decides `spec_is_gentoo` for an observed distribution name.
pub fn is_gentoo(name: &Option<String>) -> (r: bool)
    ensures
        r == spec_is_gentoo(name.deep_view()),
{
    match name {
        Some(n) => str_eq(n.as_str(), "Gentoo"),
        None => false,
    }
}

/// The user id is the superuser's.
pub fn is_root(uid: u32) -> (r: bool)
    ensures
        r == (uid == 0),
{
    uid == 0
}

/// Relies on sys_info::linux_os_release: the NAME field of the host's
/// /etc/os-release, or `None` where the file cannot be read or holds no
/// NAME. The answer depends on the machine this process runs on.
#[verifier::external_body]
fn os_release_name() -> Option<String> {
    sys_info::linux_os_release().ok().and_then(|info| info.name)
}

/// Relies on nix::unistd::Uid::effective: the effective user id of this
/// process, as the raw id. The answer depends on the calling process.
#[verifier::external_body]
fn effective_uid() -> u32 {
    nix::unistd::Uid::effective().as_raw()
}

/// Checks the platform preconditions of a run, in order: the host must
/// identify itself as Gentoo Linux, and the process must be running as
/// root. What the host reports is read here; which verdict each
/// observation earns is fixed by `is_gentoo` and `is_root`.
pub fn check_all() -> Result<(), CheckError> {
    let name = os_release_name();
    if !is_gentoo(&name) {
        return Err(CheckError::NotGentoo);
    }
    let uid = effective_uid();
    if !is_root(uid) {
        return Err(CheckError::NotRoot);
    }
    Ok(())
}

} // verus!
