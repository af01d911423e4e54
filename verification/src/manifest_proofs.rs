//! What readers of the manifest can see while it is being replaced.

use vstd::prelude::*;
use crate::manifest::ManifestEntryView;

verus! {

/// What can be done to the table in force.
pub enum TableOp {
    /// Look an application up.
    Lookup(Seq<char>),
    /// Put a new table in force.
    Replace(Map<Seq<char>, ManifestEntryView>),
}

/// The table in force after `ops`, in order, on a broker that began with
/// `initial`.
pub open spec fn table_after(
    initial: Map<Seq<char>, ManifestEntryView>,
    ops: Seq<TableOp>,
) -> Map<Seq<char>, ManifestEntryView>
    decreases ops.len(),
{
    if ops.len() == 0 {
        initial
    } else {
        match ops.last() {
            TableOp::Replace(table) => table,
            TableOp::Lookup(_) => table_after(initial, ops.drop_last()),
        }
    }
}

/// What the lookup of `app_id` answers on `table`.
pub open spec fn lookup_in(table: Map<Seq<char>, ManifestEntryView>, app_id: Seq<char>) -> Option<
    ManifestEntryView,
> {
    if table.dom().contains(app_id) {
        Some(table[app_id])
    } else {
        None
    }
}

/// Whether `table` is one of the tables that were ever put in force: the
/// first one, or one handed to a replacement among `ops`.
pub open spec fn published(
    initial: Map<Seq<char>, ManifestEntryView>,
    ops: Seq<TableOp>,
    table: Map<Seq<char>, ManifestEntryView>,
) -> bool {
    table == initial || exists|j: int| 0 <= j < ops.len() && #[trigger] ops[j] == TableOp::Replace(table)
}

/// What the lookup at `index` answers, after the operations before it.
pub open spec fn answer_at(
    initial: Map<Seq<char>, ManifestEntryView>,
    ops: Seq<TableOp>,
    index: int,
) -> Option<ManifestEntryView> {
    match ops[index] {
        TableOp::Lookup(app_id) => lookup_in(table_after(initial, ops.take(index)), app_id),
        TableOp::Replace(_) => None,
    }
}

/// However lookups and replacements follow one another, every lookup is
/// answered from one table that was put in force as a whole: the one of the
/// latest replacement before it, or the first one. No lookup sees entries
/// of two tables.
pub proof fn law_lookup_sees_one_published_table(
    initial: Map<Seq<char>, ManifestEntryView>,
    ops: Seq<TableOp>,
    index: int,
)
    requires
        0 <= index < ops.len(),
        ops[index] is Lookup,
    ensures
        published(initial, ops.take(index), table_after(initial, ops.take(index))),
        answer_at(initial, ops, index) == lookup_in(
            table_after(initial, ops.take(index)),
            ops[index]->Lookup_0,
        ),
        index > 0 && ops[index - 1] is Replace ==> answer_at(initial, ops, index) == lookup_in(
            ops[index - 1]->Replace_0,
            ops[index]->Lookup_0,
        ),
{
    lemma_table_is_published(initial, ops.take(index));
}

/// The table in force is always one that was put in force as a whole.
proof fn lemma_table_is_published(initial: Map<Seq<char>, ManifestEntryView>, ops: Seq<TableOp>)
    ensures
        published(initial, ops, table_after(initial, ops)),
    decreases ops.len(),
{
    if ops.len() > 0 && ops.last() is Lookup {
        let table = table_after(initial, ops);
        lemma_table_is_published(initial, ops.drop_last());
        if table != initial {
            let j = choose|j: int|
                0 <= j < ops.drop_last().len() && #[trigger] ops.drop_last()[j] == TableOp::Replace(table);
            assert(ops[j] == TableOp::Replace(table));
        }
    }
}

} // verus!
