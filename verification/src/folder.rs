//! The catalog of known filesystem locations and the classification rule
//! that decides whether an entry under one of them is disposable relative
//! to the running kernel version.

use vstd::prelude::*;

use crate::text::contains_seq;
use crate::text::contains_str;
use crate::text::starts_with_seq;
use crate::text::starts_with_str;

verus! {

/// The fixed set of locations the engine scans, in catalog order.
#[derive(Clone, Copy)]
pub enum Folder {
    Kernels,
    KernelModules,
    KernelSrcFolders,
    PortageCache,
    PortagePackagesSrc,
    GenkernelCache,
}

/// The scan root of a location.
pub open spec fn spec_folder_path(f: Folder) -> Seq<char> {
    match f {
        Folder::Kernels => "/boot"@,
        Folder::KernelModules => "/lib/modules"@,
        Folder::KernelSrcFolders => "/usr/src"@,
        Folder::PortageCache => "/var/tmp/portage"@,
        Folder::PortagePackagesSrc => "/var/cache/distfiles"@,
        Folder::GenkernelCache => "/var/tmp/genkernel"@,
    }
}

/// The human-readable label of a location.
pub open spec fn spec_pretty_name(f: Folder) -> Seq<char> {
    match f {
        Folder::Kernels => "kernels"@,
        Folder::KernelModules => "kernel modules"@,
        Folder::KernelSrcFolders => "kernel sources"@,
        Folder::PortageCache => "portage cache"@,
        Folder::PortagePackagesSrc => "portage packages source code"@,
        Folder::GenkernelCache => "genkernel cache"@,
    }
}

/// The filename begins with one of the recognized kernel-artifact prefixes.
pub open spec fn spec_has_kernel_prefix(name: Seq<char>) -> bool {
    ||| starts_with_seq(name, "config-"@)
    ||| starts_with_seq(name, "initramfs-"@)
    ||| starts_with_seq(name, "vmlinuz-"@)
    ||| starts_with_seq(name, "System.map-"@)
}

/// A filename names a stale kernel artifact: it does not contain the
/// running kernel version anywhere, and, where a prefix is demanded,
/// it bears one of the recognized kernel-artifact prefixes.
pub open spec fn spec_is_old_kernel(
    name: Seq<char>,
    check_prefixes: bool,
    version: Seq<char>,
) -> bool {
    &&& !contains_seq(name, version)
    &&& (check_prefixes ==> spec_has_kernel_prefix(name))
}

/// The disposability rule of each location, over the entry's filename,
/// its symbolic-link status and the running kernel version.
pub open spec fn spec_is_cache_file(
    f: Folder,
    name: Seq<char>,
    is_symlink: bool,
    version: Seq<char>,
) -> bool {
    match f {
        Folder::Kernels => spec_is_old_kernel(name, true, version),
        Folder::KernelModules => spec_is_old_kernel(name, false, version),
        Folder::KernelSrcFolders => spec_is_old_kernel(name, false, version) && !is_symlink,
        Folder::PortageCache => true,
        Folder::PortagePackagesSrc => true,
        Folder::GenkernelCache => true,
    }
}

/// The catalog: every location, in scan and report order.
pub open spec fn spec_catalog() -> Seq<Folder> {
    seq![
        Folder::Kernels,
        Folder::KernelModules,
        Folder::KernelSrcFolders,
        Folder::PortageCache,
        Folder::PortagePackagesSrc,
        Folder::GenkernelCache,
    ]
}

/// Decides `spec_is_old_kernel` for a filename.
pub fn is_old_kernel(name: &str, check_prefixes: bool, version: &str) -> (r: bool)
    ensures
        r == spec_is_old_kernel(name@, check_prefixes, version@),
{
    let is_current_kernel = contains_str(name, version);
    if check_prefixes {
        let has_prefix = starts_with_str(name, "config-") || starts_with_str(name, "initramfs-")
            || starts_with_str(name, "vmlinuz-") || starts_with_str(name, "System.map-");
        !is_current_kernel && has_prefix
    } else {
        !is_current_kernel
    }
}

impl Folder {
    /// The absolute path this location scans.
    pub fn folder_path(&self) -> (r: &'static str)
        ensures
            r@ == spec_folder_path(*self),
    {
        match self {
            Folder::Kernels => "/boot",
            Folder::KernelModules => "/lib/modules",
            Folder::KernelSrcFolders => "/usr/src",
            Folder::PortageCache => "/var/tmp/portage",
            Folder::PortagePackagesSrc => "/var/cache/distfiles",
            Folder::GenkernelCache => "/var/tmp/genkernel",
        }
    }

    /// The label this location is reported under.
    pub fn pretty_name(&self) -> (r: &'static str)
        ensures
            r@ == spec_pretty_name(*self),
    {
        match self {
            Folder::Kernels => "kernels",
            Folder::KernelModules => "kernel modules",
            Folder::KernelSrcFolders => "kernel sources",
            Folder::PortageCache => "portage cache",
            Folder::PortagePackagesSrc => "portage packages source code",
            Folder::GenkernelCache => "genkernel cache",
        }
    }

    /// Decides this location's disposability rule for one directory entry,
    /// given its filename and symbolic-link status.
    pub fn is_cache_file(&self, name: &str, is_symlink: bool, version: &str) -> (r: bool)
        ensures
            r == spec_is_cache_file(*self, name@, is_symlink, version@),
    {
        match self {
            Folder::Kernels => is_old_kernel(name, true, version),
            Folder::KernelModules => is_old_kernel(name, false, version),
            Folder::KernelSrcFolders => is_old_kernel(name, false, version) && !is_symlink,
            Folder::PortageCache => true,
            Folder::PortagePackagesSrc => true,
            Folder::GenkernelCache => true,
        }
    }

    /// Whether this location's root is present on the filesystem.
    /// The answer is whatever the filesystem reports at the moment of the call.
    pub fn root_exists(&self) -> bool {
        path_exists(self.folder_path())
    }

    /// Every location, in catalog order.
    pub fn all() -> (r: Vec<Folder>)
        ensures
            r@ == spec_catalog(),
    {
        let mut v: Vec<Folder> = Vec::new();
        v.push(Folder::Kernels);
        v.push(Folder::KernelModules);
        v.push(Folder::KernelSrcFolders);
        v.push(Folder::PortageCache);
        v.push(Folder::PortagePackagesSrc);
        v.push(Folder::GenkernelCache);
        proof {
            assert(v@ =~= spec_catalog());
        }
        v
    }
}

/// Relies on std::path::Path::exists: whether the path points at an
/// existing filesystem entity. The answer depends on the filesystem.
#[verifier::external_body]
fn path_exists(path: &str) -> bool {
    std::path::Path::new(path).exists()
}

/// The character position right after the last `-` of `s`, or 0 when `s`
/// holds no `-` at all.
pub open spec fn spec_version_start(s: Seq<char>) -> int
    decreases s.len(),
{
    if s.len() == 0 {
        0
    } else if s[s.len() - 1] == '-' {
        s.len() as int
    } else {
        spec_version_start(s.drop_last())
    }
}

/// The version token of a kernel release identifier: the part after the
/// last `-` separator, or the whole identifier when it has none.
pub open spec fn spec_kernel_version(release: Seq<char>) -> Seq<char> {
    release.subrange(spec_version_start(release), release.len() as int)
}

proof fn lemma_version_start_at_dash(s: Seq<char>, j: int)
    requires
        0 <= j < s.len(),
        s[j] == '-',
        forall|k: int| j < k < s.len() ==> s[k] != '-',
    ensures
        spec_version_start(s) == j + 1,
    decreases s.len(),
{
    if j < s.len() - 1 {
        lemma_version_start_at_dash(s.drop_last(), j);
    }
}

proof fn lemma_version_start_no_dash(s: Seq<char>)
    requires
        forall|k: int| 0 <= k < s.len() ==> s[k] != '-',
    ensures
        spec_version_start(s) == 0,
    decreases s.len(),
{
    if s.len() > 0 {
        lemma_version_start_no_dash(s.drop_last());
    }
}

/// Extracts the version token from a kernel release identifier: the part
/// after the last `-`, or the whole identifier when it has none.
pub fn get_kernel_version(release: &str) -> (r: String)
    ensures
        r@ == spec_kernel_version(release@),
{
    let len = release.unicode_len();
    let mut i: usize = len;
    while i > 0
        invariant
            i <= len,
            len == release@.len(),
            forall|k: int| i <= k < len ==> release@[k] != '-',
        decreases i,
    {
        if release.get_char(i - 1) == '-' {
            proof {
                lemma_version_start_at_dash(release@, i - 1);
            }
            let tail = release.substring_char(i, len);
            return tail.to_owned();
        }
        i -= 1;
    }
    proof {
        lemma_version_start_no_dash(release@);
    }
    release.to_owned()
}

/// Relies on uname::uname: the `release` field of the kernel's utsname
/// record, or `None` where the system call fails. The answer depends on
/// the machine this process runs on.
#[verifier::external_body]
fn uname_release() -> Option<String> {
    uname::uname().ok().map(|info| info.release)
}

/// The version token of the kernel this process is running under, or
/// `None` where the release identifier cannot be obtained from the host.
pub fn current_kernel_version() -> Option<String> {
    match uname_release() {
        Some(release) => Some(get_kernel_version(release.as_str())),
        None => None,
    }
}

/// A filename containing the running kernel version is never classified
/// disposable by any of the three kernel locations, whatever its prefix
/// and whatever its symbolic-link status.
pub proof fn lemma_current_kernel_never_disposable(
    f: Folder,
    name: Seq<char>,
    is_symlink: bool,
    version: Seq<char>,
)
    requires
        contains_seq(name, version),
        f is Kernels || f is KernelModules || f is KernelSrcFolders,
    ensures
        !spec_is_cache_file(f, name, is_symlink, version),
{
}

/// Among filenames that do not contain the running kernel version, the
/// kernel-images rule selects exactly those that bear a recognized
/// kernel-artifact prefix.
pub proof fn lemma_kernel_images_prefix(name: Seq<char>, is_symlink: bool, version: Seq<char>)
    requires
        !contains_seq(name, version),
    ensures
        spec_is_cache_file(Folder::Kernels, name, is_symlink, version) == spec_has_kernel_prefix(
            name,
        ),
{
}

/// Every entry under one of the three cache-only locations is classified
/// disposable unconditionally.
pub proof fn lemma_cache_locations_unconditional(
    f: Folder,
    name: Seq<char>,
    is_symlink: bool,
    version: Seq<char>,
)
    requires
        f is PortageCache || f is PortagePackagesSrc || f is GenkernelCache,
    ensures
        spec_is_cache_file(f, name, is_symlink, version),
{
}

} // verus!
