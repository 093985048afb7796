use gclean::cleaner::is_hidden;
use gclean::cleaner::Cleaner;
use gclean::cleaner::FolderScan;
use gclean::entry::get_size;
use gclean::entry::Entry;
use gclean::folder::Folder;

const VERSION: &str = "1.0.1-gentoo-dist";

fn file(name: &str, size: u64) -> Entry {
    Entry {
        name: name.to_owned(),
        is_symlink: false,
        is_dir: false,
        meta_size: size,
        children: Vec::new(),
    }
}

fn dir(name: &str, meta: u64, children: Vec<Entry>) -> Entry {
    Entry {
        name: name.to_owned(),
        is_symlink: false,
        is_dir: true,
        meta_size: meta,
        children,
    }
}

#[test]
fn test_is_hidden() {
    assert!(is_hidden(".keep"));
    assert!(is_hidden("."));
    assert!(!is_hidden("keep"));
    assert!(!is_hidden(""));
}

#[test]
fn test_recursive_size() {
    // A directory holding a 100-byte file and an empty subdirectory is
    // the sum of its own metadata size, the file, and the subdirectory's
    // metadata size.
    let d = dir("portage", 4096, vec![file("work.log", 100), dir("empty", 50, vec![])]);
    assert_eq!(get_size(&d), 4096 + 100 + 50);
}

#[test]
fn test_size_of_file() {
    assert_eq!(get_size(&file("a", 7)), 7);
}

#[test]
fn test_size_saturates() {
    let d = dir("huge", u64::MAX, vec![file("more", u64::MAX)]);
    assert_eq!(get_size(&d), u64::MAX);
}

#[test]
fn test_new_cleaner() {
    let c = Cleaner::new(true);
    assert_eq!(c.space_cleaned, 0);
    assert!(c.pretend);
    let c = Cleaner::new(false);
    assert!(!c.pretend);
}

#[test]
fn test_clean_selects_and_accounts() {
    let mut c = Cleaner::new(true);
    let entries = vec![
        file("1.0.0-gentoo-dist", 10),
        file("1.0.1-gentoo-dist", 20),
        file(".hidden-1.0.0-gentoo-dist", 40),
        dir("0.9.9-gentoo-dist", 100, vec![file("mod.ko", 5)]),
    ];
    let selected = c.clean(&Folder::KernelModules, VERSION, &entries);
    // The stale plain file and the stale directory qualify; the current
    // kernel's entry and the dotfile do not.
    assert_eq!(selected, vec![0usize, 3]);
    assert_eq!(c.space_cleaned, 10 + 100 + 5);
}

#[test]
fn test_clean_cache_location_takes_all_but_dotfiles() {
    let mut c = Cleaner::new(true);
    let entries = vec![file(".keep", 1), file("pkg.tar.xz", 30), dir("app", 10, vec![])];
    let selected = c.clean(&Folder::PortageCache, VERSION, &entries);
    assert_eq!(selected, vec![1usize, 2]);
    assert_eq!(c.space_cleaned, 40);
}

#[test]
fn test_perform_skips_missing_roots() {
    // A location whose root does not exist contributes nothing and gets
    // an empty report.
    let mut c = Cleaner::new(true);
    let scans = vec![
        FolderScan { folder: Folder::GenkernelCache, entries: None },
        FolderScan { folder: Folder::PortageCache, entries: Some(vec![file("x", 8)]) },
    ];
    let reports = c.perform(VERSION, &scans);
    assert_eq!(reports.len(), 2);
    assert!(reports[0].is_empty());
    assert_eq!(reports[1], vec![0usize]);
    assert_eq!(c.space_cleaned, 8);
}

#[test]
fn test_dry_run_is_repeatable() {
    let scans = vec![
        FolderScan {
            folder: Folder::Kernels,
            entries: Some(vec![file("vmlinuz-1.0.0-gentoo-dist", 900), file("grub", 100)]),
        },
        FolderScan { folder: Folder::KernelSrcFolders, entries: None },
    ];
    let mut first = Cleaner::new(true);
    first.perform(VERSION, &scans);
    let mut second = Cleaner::new(true);
    second.perform(VERSION, &scans);
    assert_eq!(first.space_cleaned, 900);
    assert_eq!(second.space_cleaned, first.space_cleaned);
}

#[test]
fn test_accounting_ignores_pretend() {
    // The total is always computed; dry-run mode gates only deletion.
    let entries = vec![file("1.0.0-gentoo-dist", 64), file("1.0.1-gentoo-dist", 32)];
    let mut dry = Cleaner::new(true);
    let mut wet = Cleaner::new(false);
    dry.clean(&Folder::KernelModules, VERSION, &entries);
    wet.clean(&Folder::KernelModules, VERSION, &entries);
    assert_eq!(dry.space_cleaned, 64);
    assert_eq!(wet.space_cleaned, 64);
}

#[test]
fn test_summary_is_scaled() {
    let mut c = Cleaner::new(true);
    let entries = vec![file("distfile.tar.gz", 1_500_000)];
    c.perform(
        VERSION,
        &vec![FolderScan { folder: Folder::PortagePackagesSrc, entries: Some(entries) }],
    );
    let rendered = c.summary();
    let direct = byte_unit::Byte::from(1_500_000u64)
        .get_appropriate_unit(false)
        .to_string();
    assert_eq!(rendered, direct);
    assert_ne!(rendered, "1500000");
}
