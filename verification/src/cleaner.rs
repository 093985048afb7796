//! The reclaim engine: walks the scanned entries of each catalog
//! location, selects the disposable ones, and accounts their sizes.
//!
//! The engine works on scan data the application gathered; the entries it
//! selects are the ones the application is to delete (unless the engine
//! was built in dry-run mode).

use vstd::prelude::*;

use crate::entry::Entry;
use crate::entry::entry_size;
use crate::entry::get_size;
use crate::entry::lemma_sat_absorb;
use crate::entry::sat64;
use crate::folder::Folder;
use crate::folder::spec_is_cache_file;

verus! {

/// The filename starts with `.`: such entries are never touched.
pub open spec fn spec_is_hidden(name: Seq<char>) -> bool {
    name.len() > 0 && name[0] == '.'
}

/// Decides `spec_is_hidden` for a filename.
pub fn is_hidden(name: &str) -> (r: bool)
    ensures
        r == spec_is_hidden(name@),
{
    if name.unicode_len() == 0 {
        false
    } else {
        name.get_char(0) == '.'
    }
}

/// An entry is up for removal at a location: it is not hidden and the
/// location's disposability rule holds of it.
pub open spec fn qualifies(f: Folder, version: Seq<char>, e: Entry) -> bool {
    &&& !spec_is_hidden(e.name@)
    &&& spec_is_cache_file(f, e.name@, e.is_symlink, version)
}

/// The indices of the qualifying entries, in increasing order.
pub open spec fn selected_of(f: Folder, version: Seq<char>, entries: Seq<Entry>) -> Seq<int>
    decreases entries.len(),
{
    if entries.len() == 0 {
        Seq::empty()
    } else {
        let prefix = selected_of(f, version, entries.drop_last());
        if qualifies(f, version, entries.last()) {
            prefix.push(entries.len() - 1)
        } else {
            prefix
        }
    }
}

/// The sum of the recursive sizes of the qualifying entries.
pub open spec fn folder_total(f: Folder, version: Seq<char>, entries: Seq<Entry>) -> nat
    decreases entries.len(),
{
    if entries.len() == 0 {
        0
    } else {
        (folder_total(f, version, entries.drop_last()) + if qualifies(
            f,
            version,
            entries.last(),
        ) {
            entry_size(entries.last())
        } else {
            0
        }) as nat
    }
}

/// What the application observed at one catalog location: the location,
/// and the immediate children of its root, or `None` where the root does
/// not exist on the filesystem.
pub struct FolderScan {
    pub folder: Folder,
    pub entries: Option<Vec<Entry>>,
}

/// The bytes one scanned location contributes: zero where its root is
/// absent.
pub open spec fn scan_entries_total(version: Seq<char>, s: FolderScan) -> nat {
    match s.entries {
        Some(es) => folder_total(s.folder, version, es@),
        None => 0,
    }
}

/// The indices selected at one scanned location: none where its root is
/// absent.
pub open spec fn scan_selected(version: Seq<char>, s: FolderScan) -> Seq<int> {
    match s.entries {
        Some(es) => selected_of(s.folder, version, es@),
        None => Seq::empty(),
    }
}

/// The bytes a whole run reclaims over a sequence of scanned locations.
pub open spec fn scan_total(version: Seq<char>, scans: Seq<FolderScan>) -> nat
    decreases scans.len(),
{
    if scans.len() == 0 {
        0
    } else {
        (scan_total(version, scans.drop_last()) + scan_entries_total(
            version,
            scans.last(),
        )) as nat
    }
}

/// The reclaim engine. `space_cleaned` is the running byte total;
/// `pretend` is the dry-run flag: when it is set, the caller must not
/// delete what the engine selects.
pub struct Cleaner {
    pub space_cleaned: u64,
    pub pretend: bool,
}

impl Cleaner {
    /// A fresh engine: nothing reclaimed yet.
    pub fn new(pretend: bool) -> (r: Self)
        ensures
            r.space_cleaned == 0,
            r.pretend == pretend,
    {
        Cleaner { space_cleaned: 0, pretend }
    }

    /// Selects the disposable entries of one location and adds their
    /// recursive sizes to the running total, saturating at u64::MAX.
    /// Returns the indices of the selected entries, in increasing order.
    pub fn clean(&mut self, folder: &Folder, version: &str, entries: &Vec<Entry>) -> (r: Vec<
        usize,
    >)
        ensures
            final(self).pretend == old(self).pretend,
            final(self).space_cleaned == sat64(
                old(self).space_cleaned + folder_total(*folder, version@, entries@),
            ),
            r@.map_values(|k: usize| k as int) == selected_of(*folder, version@, entries@),
    {
        let mut selected: Vec<usize> = Vec::new();
        let mut i: usize = 0;
        while i < entries.len()
            invariant
                i <= entries@.len(),
                self.pretend == old(self).pretend,
                self.space_cleaned == sat64(
                    old(self).space_cleaned + folder_total(
                        *folder,
                        version@,
                        entries@.take(i as int),
                    ),
                ),
                selected@.map_values(|k: usize| k as int) == selected_of(
                    *folder,
                    version@,
                    entries@.take(i as int),
                ),
            decreases entries@.len() - i,
        {
            proof {
                assert(entries@.take(i + 1).drop_last() =~= entries@.take(i as int));
                assert(entries@.take(i + 1).last() == entries@[i as int]);
            }
            let e = &entries[i];
            if !is_hidden(e.name.as_str()) && folder.is_cache_file(
                e.name.as_str(),
                e.is_symlink,
                version,
            ) {
                let size = get_size(e);
                proof {
                    lemma_sat_absorb(
                        old(self).space_cleaned + folder_total(
                            *folder,
                            version@,
                            entries@.take(i as int),
                        ),
                        size as int,
                    );
                    lemma_sat_absorb(
                        (old(self).space_cleaned + folder_total(
                            *folder,
                            version@,
                            entries@.take(i as int),
                        )) as int,
                        entry_size(entries@[i as int]) as int,
                    );
                    assert(selected@.push(i).map_values(|k: usize| k as int) =~= selected@
                        .map_values(|k: usize| k as int).push(i as int));
                }
                self.space_cleaned = self.space_cleaned.saturating_add(size);
                selected.push(i);
            }
            i += 1;
        }
        proof {
            assert(entries@.take(entries@.len() as int) =~= entries@);
        }
        selected
    }

    /// Runs the engine over the scan data of a whole catalog pass, in
    /// order, and reports per location the indices it selected. A
    /// location whose root was absent contributes nothing and gets an
    /// empty report.
    pub fn perform(&mut self, version: &str, scans: &Vec<FolderScan>) -> (r: Vec<Vec<usize>>)
        ensures
            final(self).pretend == old(self).pretend,
            final(self).space_cleaned == sat64(
                old(self).space_cleaned + scan_total(version@, scans@),
            ),
            r@.len() == scans@.len(),
            forall|j: int|
                0 <= j < scans@.len() ==> (#[trigger] r@[j])@.map_values(|k: usize| k as int)
                    == scan_selected(version@, scans@[j]),
    {
        let mut reports: Vec<Vec<usize>> = Vec::new();
        let mut i: usize = 0;
        while i < scans.len()
            invariant
                i <= scans@.len(),
                self.pretend == old(self).pretend,
                self.space_cleaned == sat64(
                    old(self).space_cleaned + scan_total(version@, scans@.take(i as int)),
                ),
                reports@.len() == i,
                forall|j: int|
                    0 <= j < i ==> (#[trigger] reports@[j])@.map_values(|k: usize| k as int)
                        == scan_selected(version@, scans@[j]),
            decreases scans@.len() - i,
        {
            proof {
                assert(scans@.take(i + 1).drop_last() =~= scans@.take(i as int));
                assert(scans@.take(i + 1).last() == scans@[i as int]);
            }
            let ghost prev_total = old(self).space_cleaned + scan_total(
                version@,
                scans@.take(i as int),
            );
            let scan = &scans[i];
            let report: Vec<usize> = match &scan.entries {
                Some(es) => {
                    let r = self.clean(&scan.folder, version, es);
                    proof {
                        lemma_sat_absorb(
                            prev_total,
                            folder_total(scan.folder, version@, es@) as int,
                        );
                    }
                    r
                },
                None => Vec::new(),
            };
            proof {
                assert(Seq::<usize>::empty().map_values(|k: usize| k as int) =~= Seq::<
                    int,
                >::empty());
            }
            reports.push(report);
            i += 1;
        }
        proof {
            assert(scans@.take(scans@.len() as int) =~= scans@);
        }
        reports
    }

    /// The human-readable, auto-scaled rendering of the total reclaimed
    /// so far.
    pub fn summary(&self) -> (r: String)
        ensures
            r@ == appropriate_unit_of(self.space_cleaned),
    {
        pretty_size(self.space_cleaned)
    }
}

/// Every index a location selects designates an in-range, qualifying
/// entry; in particular a dotfile entry is never selected for deletion
/// or size accounting, at any location.
pub proof fn lemma_dotfiles_never_selected(
    f: Folder,
    version: Seq<char>,
    entries: Seq<Entry>,
    j: int,
)
    requires
        selected_of(f, version, entries).contains(j),
    ensures
        0 <= j < entries.len(),
        qualifies(f, version, entries[j]),
        !spec_is_hidden(entries[j].name@),
    decreases entries.len(),
{
    let sel = selected_of(f, version, entries);
    let prefix = selected_of(f, version, entries.drop_last());
    if qualifies(f, version, entries.last()) && j == entries.len() - 1 {
        assert(entries[j] == entries.last());
    } else {
        let k = choose|k: int| 0 <= k < sel.len() && sel[k] == j;
        assert(prefix[k] == j);
        assert(prefix.contains(j));
        lemma_dotfiles_never_selected(f, version, entries.drop_last(), j);
        assert(entries.drop_last()[j] == entries[j]);
    }
}

/// Every index a location selects lies within the scanned entries.
proof fn lemma_selected_in_range(f: Folder, version: Seq<char>, entries: Seq<Entry>)
    ensures
        forall|k: int|
            0 <= k < selected_of(f, version, entries).len() ==> 0 <= #[trigger] selected_of(
                f,
                version,
                entries,
            )[k] < entries.len(),
    decreases entries.len(),
{
    if entries.len() > 0 {
        let rest = entries.drop_last();
        let prefix = selected_of(f, version, rest);
        lemma_selected_in_range(f, version, rest);
        let sel = selected_of(f, version, entries);
        assert forall|k: int| 0 <= k < sel.len() implies 0 <= #[trigger] sel[k] < entries.len() by {
            if qualifies(f, version, entries.last()) {
                assert(sel == prefix.push(entries.len() - 1));
                if k < prefix.len() {
                    assert(sel[k] == prefix[k]);
                }
            } else {
                assert(sel == prefix);
            }
        }
    }
}

/// The sum of the recursive sizes of the entries that a list of indices
/// designates; an out-of-range index contributes nothing.
pub open spec fn size_of_selected(entries: Seq<Entry>, idxs: Seq<int>) -> nat
    decreases idxs.len(),
{
    if idxs.len() == 0 {
        0
    } else {
        (size_of_selected(entries, idxs.drop_last()) + if 0 <= idxs.last() < entries.len() {
            entry_size(entries[idxs.last()])
        } else {
            0
        }) as nat
    }
}

proof fn lemma_size_of_selected_shrink(entries: Seq<Entry>, idxs: Seq<int>)
    requires
        forall|k: int| 0 <= k < idxs.len() ==> 0 <= #[trigger] idxs[k] < entries.len() - 1,
    ensures
        size_of_selected(entries, idxs) == size_of_selected(entries.drop_last(), idxs),
    decreases idxs.len(),
{
    if idxs.len() > 0 {
        lemma_size_of_selected_shrink(entries, idxs.drop_last());
        assert(entries.drop_last()[idxs.last()] == entries[idxs.last()]);
    }
}

/// The bytes accounted for a location equal the sum of the recursive
/// sizes of exactly the entries selected there: everything selected is
/// counted once, and nothing else is counted.
pub proof fn lemma_total_is_sum_of_selected(f: Folder, version: Seq<char>, entries: Seq<Entry>)
    ensures
        folder_total(f, version, entries) == size_of_selected(
            entries,
            selected_of(f, version, entries),
        ),
    decreases entries.len(),
{
    if entries.len() > 0 {
        let rest = entries.drop_last();
        let prefix = selected_of(f, version, rest);
        lemma_total_is_sum_of_selected(f, version, rest);
        lemma_selected_in_range(f, version, rest);
        lemma_size_of_selected_shrink(entries, prefix);
        if qualifies(f, version, entries.last()) {
            assert(selected_of(f, version, entries) == prefix.push(entries.len() - 1));
            assert(prefix.push(entries.len() - 1).drop_last() =~= prefix);
        }
    }
}

/// The total a run reports is a function of the scan data alone: two
/// engines that start from zero and observe the same (unchanged)
/// filesystem report the same total, so a dry run is repeatable.
pub proof fn lemma_dry_run_repeatable(
    version: Seq<char>,
    scans: Seq<FolderScan>,
    r1: u64,
    r2: u64,
)
    requires
        r1 == sat64(scan_total(version, scans) as int),
        r2 == sat64(scan_total(version, scans) as int),
    ensures
        r1 == r2,
{
}

/// The auto-scaled, human-readable rendering of a byte count, as the
/// formatting library produces it; a function of the count alone.
pub uninterp spec fn appropriate_unit_of(bytes: u64) -> Seq<char>;

/// Relies on byte_unit::Byte::get_appropriate_unit: renders a byte count
/// with an automatically chosen decimal unit; the result depends on the
/// count alone.
#[verifier::external_body]
fn pretty_size(bytes: u64) -> (r: String)
    ensures
        r@ == appropriate_unit_of(bytes),
{
    format!("{}", byte_unit::Byte::from(bytes).get_appropriate_unit(false))
}

} // verus!
