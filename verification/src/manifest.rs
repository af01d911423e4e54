//! The table of loadable applications and their load policy.

use vstd::prelude::*;
use vstd::string::*;
use crate::manifest_proofs::lookup_in;

verus! {

/// One loadable application.
#[derive(Debug, PartialEq, Eq)]
pub struct ManifestEntry {
    /// Identity of the application; the key of the table.
    pub app_id: String,
    /// Where the loadable image lives.
    pub path: String,
    /// Whether the image is verified. An entry without the flag counts as
    /// not verified.
    pub verified: Option<bool>,
}

/// Mathematical value of a [`ManifestEntry`].
pub struct ManifestEntryView {
    pub app_id: Seq<char>,
    pub path: Seq<char>,
    pub verified: Option<bool>,
}

impl View for ManifestEntry {
    type V = ManifestEntryView;

    open spec fn view(&self) -> ManifestEntryView {
        ManifestEntryView { app_id: self.app_id@, path: self.path@, verified: self.verified }
    }
}

impl ManifestEntryView {
    /// An image may be loaded without developer mode only when it is
    /// verified.
    pub open spec fn is_verified(self) -> bool {
        self.verified == Some(true)
    }
}

impl ManifestEntry {
    /// An entry with these attributes.
    pub fn new(app_id: String, path: String, verified: Option<bool>) -> (entry: ManifestEntry)
        ensures
            entry@ == (ManifestEntryView { app_id: app_id@, path: path@, verified }),
    {
        ManifestEntry { app_id, path, verified }
    }

    /// Whether the image may be loaded without developer mode.
    pub fn is_verified(&self) -> (b: bool)
        ensures
            b == self@.is_verified(),
    {
        match self.verified {
            Some(flag) => flag,
            None => false,
        }
    }

    /// An independent copy of the entry.
    pub fn duplicate(&self) -> (copy: ManifestEntry)
        ensures
            copy@ == self@,
    {
        ManifestEntry {
            app_id: self.app_id.clone(),
            path: self.path.clone(),
            verified: self.verified,
        }
    }
}

/// The table of loadable applications, keyed by application id.
///
/// No two entries share an id. A table is replaced as a whole: there is no
/// operation that leaves it between two published states.
#[derive(Debug)]
pub struct Manifest {
    entries: Vec<ManifestEntry>,
}

/// Whether no id occurs twice among `entries`.
spec fn distinct_ids(entries: Seq<ManifestEntry>) -> bool {
    forall|i: int, j: int|
        0 <= i < entries.len() && 0 <= j < entries.len() && i != j ==> #[trigger] entries[i].app_id@
            != #[trigger] entries[j].app_id@
}

/// Whether some entry of `entries` has the id `app_id`.
spec fn has_id(entries: Seq<ManifestEntry>, app_id: Seq<char>) -> bool {
    exists|i: int| 0 <= i < entries.len() && #[trigger] entries[i].app_id@ == app_id
}

/// The position of the entry with the id `app_id`, where there is one.
spec fn position_of(entries: Seq<ManifestEntry>, app_id: Seq<char>) -> int {
    choose|i: int| 0 <= i < entries.len() && #[trigger] entries[i].app_id@ == app_id
}

/// The table that `entries` stand for.
spec fn table_of(entries: Seq<ManifestEntry>) -> Map<Seq<char>, ManifestEntryView> {
    Map::new(
        |app_id: Seq<char>| has_id(entries, app_id),
        |app_id: Seq<char>| entries[position_of(entries, app_id)]@,
    )
}

impl View for Manifest {
    type V = Map<Seq<char>, ManifestEntryView>;

    closed spec fn view(&self) -> Map<Seq<char>, ManifestEntryView> {
        table_of(self.entries@)
    }
}

/// With distinct ids, the entry at position `i` is the one the table holds
/// under its id.
proof fn lemma_table_holds(entries: Seq<ManifestEntry>, i: int)
    requires
        distinct_ids(entries),
        0 <= i < entries.len(),
    ensures
        table_of(entries).dom().contains(entries[i].app_id@),
        table_of(entries)[entries[i].app_id@] == entries[i]@,
{
    assert(position_of(entries, entries[i].app_id@) == i);
}

/// Putting `entry` in the place of an entry with the same id changes what
/// the table holds under that id, and nothing else.
proof fn lemma_table_after_update(before: Seq<ManifestEntry>, i: int, entry: ManifestEntry)
    requires
        distinct_ids(before),
        0 <= i < before.len(),
        before[i].app_id@ == entry.app_id@,
    ensures
        distinct_ids(before.update(i, entry)),
        table_of(before.update(i, entry)) == table_of(before).insert(entry.app_id@, entry@),
{
    let after = before.update(i, entry);
    assert(distinct_ids(after));
    assert forall|k: Seq<char>| has_id(after, k) <==> has_id(before, k) by {
        if has_id(before, k) {
            assert(after[position_of(before, k)].app_id@ == k);
        }
    }
    assert forall|k: Seq<char>| has_id(after, k) implies #[trigger] table_of(after)[k] == table_of(
        before,
    ).insert(entry.app_id@, entry@)[k] by {
        let a = position_of(after, k);
        lemma_table_holds(after, a);
        if k != entry.app_id@ {
            lemma_table_holds(before, a);
        }
    }
}

/// Adding an entry whose id is new adds it to the table, and changes
/// nothing else.
proof fn lemma_table_after_push(before: Seq<ManifestEntry>, entry: ManifestEntry)
    requires
        distinct_ids(before),
        !has_id(before, entry.app_id@),
    ensures
        distinct_ids(before.push(entry)),
        table_of(before.push(entry)) == table_of(before).insert(entry.app_id@, entry@),
{
    let after = before.push(entry);
    let id = entry.app_id@;
    assert(distinct_ids(after));
    assert forall|k: Seq<char>| has_id(after, k) <==> (has_id(before, k) || k == id) by {
        if has_id(after, k) && position_of(after, k) < before.len() {
            assert(before[position_of(after, k)].app_id@ == k);
        }
        if has_id(before, k) {
            assert(after[position_of(before, k)].app_id@ == k);
        }
    }
    assert forall|k: Seq<char>| has_id(after, k) implies #[trigger] table_of(after)[k] == table_of(
        before,
    ).insert(id, entry@)[k] by {
        let a = position_of(after, k);
        lemma_table_holds(after, a);
        if k != id {
            lemma_table_holds(before, a);
        } else {
            assert(after[before.len() as int].app_id@ == k);
        }
    }
}

impl Manifest {
    #[verifier::type_invariant]
    spec fn well_formed(self) -> bool {
        distinct_ids(self.entries@)
    }

    /// The empty table.
    pub fn new() -> (m: Manifest)
        ensures
            m@ == Map::<Seq<char>, ManifestEntryView>::empty(),
    {
        Manifest { entries: Vec::new() }
    }

    /// The entry kept under `app_id`, if the table has one. Reads only.
    pub fn lookup(&self, app_id: &str) -> (found: Option<&ManifestEntry>)
        ensures
            found is Some <==> self@.dom().contains(app_id@),
            found is Some ==> found->Some_0@ == self@[app_id@],
            match found {
                Some(entry) => Some(entry@),
                None => None,
            } == lookup_in(self@, app_id@),
    {
        proof {
            use_type_invariant(self);
        }
        let key = app_id.to_owned();
        let mut i: usize = 0;
        while i < self.entries.len()
            invariant
                i <= self.entries.len(),
                key@ == app_id@,
                forall|k: int| 0 <= k < i ==> self.entries@[k].app_id@ != app_id@,
                distinct_ids(self.entries@),
            decreases self.entries.len() - i,
        {
            if self.entries[i].app_id == key {
                proof {
                    lemma_table_holds(self.entries@, i as int);
                }
                return Some(&self.entries[i]);
            }
            i = i + 1;
        }
        None
    }

    /// Puts `entry` into the table, in place of the entry that had its id.
    /// Returns the entry that was replaced.
    pub fn insert(&mut self, entry: ManifestEntry) -> (previous: Option<ManifestEntry>)
        ensures
            final(self)@ == old(self)@.insert(entry.app_id@, entry@),
            previous is Some <==> old(self)@.dom().contains(entry.app_id@),
            previous is Some ==> previous->Some_0@ == old(self)@[entry.app_id@],
    {
        proof {
            use_type_invariant(&*self);
        }
        let ghost before = self.entries@;
        let ghost id = entry.app_id@;
        let mut i: usize = 0;
        while i < self.entries.len()
            invariant
                i <= self.entries.len(),
                self.entries@ == before,
                entry.app_id@ == id,
                forall|k: int| 0 <= k < i ==> before[k].app_id@ != id,
            ensures
                i < before.len() ==> before[i as int].app_id@ == id,
            decreases self.entries.len() - i,
        {
            if self.entries[i].app_id == entry.app_id {
                break ;
            }
            i = i + 1;
        }
        let ghost put = entry;
        let found = i < self.entries.len();
        let mut entries: Vec<ManifestEntry> = Vec::new();
        std::mem::swap(&mut entries, &mut self.entries);
        entries.push(entry);
        if found {
            let previous = entries.swap_remove(i);
            proof {
                lemma_table_holds(before, i as int);
                assert(entries@ =~= before.update(i as int, put));
                lemma_table_after_update(before, i as int, put);
            }
            self.entries = entries;
            Some(previous)
        } else {
            proof {
                lemma_table_after_push(before, put);
            }
            self.entries = entries;
            None
        }
    }

    /// Swaps the whole table for `new_manifest` in one step. Afterwards every
    /// lookup answers from `new_manifest` and from nothing else.
    pub fn replace(&mut self, new_manifest: Manifest)
        ensures
            final(self)@ == new_manifest@,
    {
        *self = new_manifest;
    }

    /// The entries of the table, each once, in no particular order.
    pub fn list(&self) -> (all: Vec<ManifestEntry>)
        ensures
            forall|i: int|
                0 <= i < all.len() ==> self@.dom().contains(#[trigger] all[i].app_id@) && self@[all[i].app_id@]
                    == all[i]@,
            forall|app_id: Seq<char>|
                self@.dom().contains(app_id) ==> exists|i: int|
                    0 <= i < all.len() && #[trigger] all[i].app_id@ == app_id,
            forall|i: int, j: int|
                0 <= i < all.len() && 0 <= j < all.len() && i != j ==> #[trigger] all[i].app_id@
                    != #[trigger] all[j].app_id@,
            all.len() == self@.dom().len(),
    {
        proof {
            use_type_invariant(self);
            lemma_table_size(self.entries@);
        }
        let mut all: Vec<ManifestEntry> = Vec::new();
        let mut i: usize = 0;
        while i < self.entries.len()
            invariant
                i <= self.entries.len(),
                all.len() == i,
                forall|k: int| 0 <= k < i ==> #[trigger] all[k]@ == self.entries@[k]@,
            decreases self.entries.len() - i,
        {
            all.push(self.entries[i].duplicate());
            i = i + 1;
        }
        proof {
            let entries = self.entries@;
            assert forall|k: int| 0 <= k < all.len() implies self@.dom().contains(#[trigger] all[k].app_id@)
                && self@[all[k].app_id@] == all[k]@ by {
                assert(all[k]@ == entries[k]@);
                lemma_table_holds(entries, k);
            }
            assert forall|app_id: Seq<char>| self@.dom().contains(app_id) implies exists|k: int|
                0 <= k < all.len() && #[trigger] all[k].app_id@ == app_id by {
                let k = position_of(entries, app_id);
                assert(all[k]@ == entries[k]@);
            }
        }
        all
    }

    /// How many applications the table holds.
    pub fn len(&self) -> (n: usize)
        ensures
            n == self@.dom().len(),
            self@.dom().finite(),
    {
        proof {
            use_type_invariant(self);
            lemma_table_size(self.entries@);
        }
        self.entries.len()
    }

    /// Whether the table holds no application.
    pub fn is_empty(&self) -> (b: bool)
        ensures
            b == (self@ == Map::<Seq<char>, ManifestEntryView>::empty()),
    {
        proof {
            use_type_invariant(self);
            if self.entries@.len() > 0 {
                lemma_table_holds(self.entries@, 0);
            } else {
                assert(self@ =~= Map::<Seq<char>, ManifestEntryView>::empty());
            }
        }
        self.entries.len() == 0
    }
}

/// The ids of `entries`, in order.
spec fn ids_of(entries: Seq<ManifestEntry>) -> Seq<Seq<char>> {
    Seq::new(entries.len(), |i: int| entries[i].app_id@)
}

/// A table built from entries with distinct ids has as many keys as there
/// are entries.
proof fn lemma_table_size(entries: Seq<ManifestEntry>)
    requires
        distinct_ids(entries),
    ensures
        table_of(entries).dom().finite(),
        table_of(entries).dom().len() == entries.len(),
{
    let ids = ids_of(entries);
    assert(ids.no_duplicates());
    ids.unique_seq_to_set();
    assert(table_of(entries).dom() =~= ids.to_set()) by {
        assert forall|k: Seq<char>| table_of(entries).dom().contains(k) <==> ids.to_set().contains(k) by {
            if has_id(entries, k) {
                assert(ids[position_of(entries, k)] == k);
            }
            if ids.to_set().contains(k) {
                let i = choose|i: int| 0 <= i < ids.len() && ids[i] == k;
                assert(entries[i].app_id@ == k);
            }
        }
    }
}

} // verus!
