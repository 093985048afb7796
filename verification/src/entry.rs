//! The scanned image of a filesystem entry and its recursive on-disk size.
//!
//! The application builds an `Entry` tree from a directory listing and
//! hands it to the library; the library owns the size accounting.

use vstd::prelude::*;

verus! {

/// One filesystem entry as the scan observed it: its filename, whether
/// it is a symbolic link, whether it is a directory, the size its own
/// metadata reports, and, for a directory, its children. An entry whose
/// metadata could not be read is recorded with size 0 and no children.
pub struct Entry {
    pub name: String,
    pub is_symlink: bool,
    pub is_dir: bool,
    pub meta_size: u64,
    pub children: Vec<Entry>,
}

/// The recursive on-disk size of an entry: its own metadata size plus
/// the recursive sizes of all of its children.
pub open spec fn entry_size(e: Entry) -> nat
    decreases e,
{
    (e.meta_size + entries_size(e.children@)) as nat
}

/// The sum of the recursive sizes of a sequence of entries.
pub open spec fn entries_size(s: Seq<Entry>) -> nat
    decreases s,
{
    if s.len() == 0 {
        0
    } else {
        entry_size(s[0]) + entries_size(s.drop_first())
    }
}

/// `n` clamped to what a u64 can hold.
pub open spec fn sat64(n: int) -> int {
    if n <= u64::MAX {
        n
    } else {
        u64::MAX as int
    }
}

proof fn lemma_entries_size_push(s: Seq<Entry>, e: Entry)
    ensures
        entries_size(s.push(e)) == entries_size(s) + entry_size(e),
    decreases s.len(),
{
    let t = s.push(e);
    assert(t.len() == s.len() + 1);
    assert(entries_size(t) == entry_size(t[0]) + entries_size(t.drop_first()));
    if s.len() == 0 {
        assert(t[0] == e);
        assert(t.drop_first() =~= Seq::<Entry>::empty());
        assert(entries_size(t.drop_first()) == 0);
    } else {
        assert(t[0] == s[0]);
        assert(t.drop_first() =~= s.drop_first().push(e));
        lemma_entries_size_push(s.drop_first(), e);
    }
}

pub(crate) proof fn lemma_sat_absorb(x: int, y: int)
    requires
        x >= 0,
        y >= 0,
    ensures
        sat64(sat64(x) + y) == sat64(x + y),
        sat64(x + sat64(y)) == sat64(x + y),
{
}

/// Computes the recursive size of an entry, clamped to what a u64 can
/// hold: additions that would exceed u64::MAX saturate.
pub fn get_size(e: &Entry) -> (r: u64)
    ensures
        r == sat64(entry_size(*e) as int),
    decreases *e,
{
    let mut total: u64 = e.meta_size;
    let mut i: usize = 0;
    while i < e.children.len()
        invariant
            i <= e.children@.len(),
            total == sat64(e.meta_size + entries_size(e.children@.take(i as int))),
        decreases e.children@.len() - i,
    {
        proof {
            assert(decreases_to!(*e => e.children@[i as int]));
        }
        let child_size = get_size(&e.children[i]);
        proof {
            assert(e.children@.take(i + 1).drop_last() =~= e.children@.take(i as int));
            lemma_entries_size_push(e.children@.take(i as int), e.children@[i as int]);
            assert(e.children@.take(i + 1) =~= e.children@.take(i as int).push(
                e.children@[i as int],
            ));
            lemma_sat_absorb(
                e.meta_size + entries_size(e.children@.take(i as int)),
                child_size as int,
            );
            lemma_sat_absorb(
                (e.meta_size + entries_size(e.children@.take(i as int))) as int,
                entry_size(e.children@[i as int]) as int,
            );
        }
        total = total.saturating_add(child_size);
        i += 1;
    }
    proof {
        assert(e.children@.take(e.children@.len() as int) =~= e.children@);
    }
    total
}

} // verus!
