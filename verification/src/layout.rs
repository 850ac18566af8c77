//! How a stream of rows is laid out in row groups: every group but the last
//! is full, the last holds what is left, and no row is lost, repeated or
//! moved.

use vstd::prelude::*;
use crate::record::{Row, UnzippedFile};
use crate::rowgroup::{Batcher, RowGroup};

verus! {

/// The row groups that `rows` are cut into, in order: full groups of `size`
/// rows, then one shorter group where rows are left over.
pub open spec fn spec_row_groups<T>(rows: Seq<T>, size: nat) -> Seq<Seq<T>>
    decreases rows.len(),
{
    if rows.len() == 0 || size == 0 {
        Seq::empty()
    } else {
        let first = if rows.len() <= size {
            rows.len()
        } else {
            size
        };
        seq![rows.take(first as int)] + spec_row_groups(rows.skip(first as int), size)
    }
}

/// The number of groups that `n` rows fill: `n / size`, rounded up.
pub open spec fn spec_group_count(n: nat, size: nat) -> nat {
    ((n + size - 1) / (size as int)) as nat
}

/// The length of the last group of `n > 0` rows: the remainder of `n` by
/// `size`, or `size` where nothing remains.
pub open spec fn spec_last_group_len(n: nat, size: nat) -> nat {
    if n % size == 0 {
        size
    } else {
        n % size
    }
}

/// The records of a list as rows.
pub open spec fn rows_of(records: Seq<UnzippedFile>) -> Seq<Row> {
    Seq::new(records.len(), |i: int| records[i]@)
}

/// The row groups of a list as plain data.
pub open spec fn groups_of(groups: Seq<RowGroup>) -> Seq<Seq<Row>> {
    Seq::new(groups.len(), |i: int| groups[i]@)
}

/// Adding one more group of at most `size` rows behind `full` full groups
/// adds exactly that group to the layout.
pub proof fn lemma_groups_append<T>(done: Seq<T>, group: Seq<T>, size: nat, full: nat)
    requires
        size > 0,
        done.len() == full * size,
        0 < group.len() <= size,
    ensures
        spec_row_groups(done + group, size) == spec_row_groups(done, size).push(group),
    decreases full,
{
    let all = done + group;
    if full == 0 {
        assert(done.len() == 0) by (nonlinear_arith)
            requires
                done.len() == full * size,
                full == 0,
        ;
        assert(all =~= group);
        assert(group.take(group.len() as int) =~= group);
        assert(spec_row_groups(group.skip(group.len() as int), size) =~= Seq::empty());
        assert(spec_row_groups(done, size) =~= Seq::empty());
        assert(spec_row_groups(all, size) =~= spec_row_groups(done, size).push(group));
    } else {
        assert(full * size == (full - 1) * size + size) by (nonlinear_arith);
        assert((full - 1) * size >= 0) by (nonlinear_arith)
            requires
                full >= 1,
        ;
        let rest = done.skip(size as int);
        lemma_groups_append(rest, group, size, (full - 1) as nat);
        assert(all.take(size as int) =~= done.take(size as int));
        assert(all.skip(size as int) =~= rest + group);
        assert(spec_row_groups(all, size) =~= spec_row_groups(done, size).push(group));
    }
}

/// The rows of the groups, read group after group, are the rows that went
/// in: none lost, none repeated, none moved.
pub proof fn lemma_groups_keep_rows<T>(rows: Seq<T>, size: nat)
    requires
        size > 0,
    ensures
        spec_row_groups(rows, size).flatten() == rows,
        spec_row_groups(rows, size).flatten().len() == rows.len(),
    decreases rows.len(),
{
    if rows.len() > 0 {
        let first: int = if rows.len() <= size {
            rows.len() as int
        } else {
            size as int
        };
        let rest = spec_row_groups(rows.skip(first), size);
        let groups = spec_row_groups(rows, size);
        lemma_groups_keep_rows(rows.skip(first), size);
        assert(groups.first() == rows.take(first));
        assert(groups.drop_first() =~= rest);
        assert(rows.take(first) + rows.skip(first) =~= rows);
    }
}

/// `n` rows fill `n / size` groups, rounded up.
pub proof fn lemma_group_count<T>(rows: Seq<T>, size: nat)
    requires
        size > 0,
    ensures
        spec_row_groups(rows, size).len() == spec_group_count(rows.len(), size),
    decreases rows.len(),
{
    let n = rows.len();
    if n == 0 {
        assert((size - 1) / (size as int) == 0) by (nonlinear_arith)
            requires
                size > 0,
        ;
    } else if n <= size {
        assert(spec_row_groups(rows.skip(n as int), size) =~= Seq::empty());
        assert((n + size - 1) / (size as int) == 1) by (nonlinear_arith)
            requires
                0 < n <= size,
        ;
    } else {
        lemma_group_count(rows.skip(size as int), size);
        assert((n + size - 1) / (size as int) == 1 + (n - size + size - 1) / (size as int))
            by (nonlinear_arith)
            requires
                size > 0,
                n > size,
        ;
    }
}

/// Every group but the last is full; the last holds the remainder of the
/// row count by `size`, or is full where nothing remains.
pub proof fn lemma_group_sizes<T>(rows: Seq<T>, size: nat, i: int)
    requires
        size > 0,
        0 <= i < spec_row_groups(rows, size).len(),
    ensures
        i + 1 < spec_row_groups(rows, size).len() ==> spec_row_groups(rows, size)[i].len() == size,
        i + 1 == spec_row_groups(rows, size).len() ==> spec_row_groups(rows, size)[i].len()
            == spec_last_group_len(rows.len(), size),
    decreases rows.len(),
{
    let n = rows.len();
    let groups = spec_row_groups(rows, size);
    if n <= size {
        assert(spec_row_groups(rows.skip(n as int), size) =~= Seq::empty());
        assert(groups.len() == 1);
        assert(n % size == (if n == size {
            0
        } else {
            n as int
        })) by (nonlinear_arith)
            requires
                0 < n <= size,
        ;
    } else {
        let rest = spec_row_groups(rows.skip(size as int), size);
        assert(rest.len() > 0);
        assert((n - size) % (size as int) == n % size) by (nonlinear_arith)
            requires
                size > 0,
                n > size,
        ;
        if i > 0 {
            lemma_group_sizes(rows.skip(size as int), size, i - 1);
            assert(groups[i] == rest[i - 1]);
        }
    }
}

/// Two arrival orders of the same records give the same rows, as a
/// multiset, in the same number of groups.
pub proof fn lemma_arrival_order_is_immaterial<T>(one: Seq<T>, other: Seq<T>, size: nat)
    requires
        size > 0,
        one.to_multiset() == other.to_multiset(),
    ensures
        spec_row_groups(one, size).flatten().to_multiset() == spec_row_groups(
            other,
            size,
        ).flatten().to_multiset(),
        spec_row_groups(one, size).len() == spec_row_groups(other, size).len(),
{
    broadcast use vstd::seq_lib::to_multiset_len;

    lemma_groups_keep_rows(one, size);
    lemma_groups_keep_rows(other, size);
    lemma_group_count(one, size);
    lemma_group_count(other, size);
    assert(one.len() == one.to_multiset().len());
    assert(other.len() == other.to_multiset().len());
}

/// Cuts a list of records into row groups by passing them through a
/// batcher one by one and ending the stream.
pub fn batch_all(records: Vec<UnzippedFile>, row_group_size: usize) -> (groups: Vec<RowGroup>)
    requires
        row_group_size > 0,
    ensures
        groups_of(groups@) == spec_row_groups(rows_of(records@), row_group_size as nat),
        forall|i: int| 0 <= i < groups@.len() ==> (#[trigger] groups@[i]).wf(),
{
    let ghost all = rows_of(records@);
    let ghost size = row_group_size as nat;
    let ghost mut done: Seq<Row> = Seq::empty();
    let mut batcher = Batcher::new(row_group_size);
    let mut groups: Vec<RowGroup> = Vec::new();
    assert(groups_of(groups@) =~= spec_row_groups(done, size));
    for record in it: records
        invariant
            size == row_group_size,
            size > 0,
            batcher.wf(),
            batcher.capacity() == size,
            it.seq() == records@,
            all == rows_of(records@),
            done.len() == groups@.len() * size,
            groups_of(groups@) == spec_row_groups(done, size),
            done + batcher.pending() == all.take(it.index() as int),
            forall|i: int| 0 <= i < groups@.len() ==> (#[trigger] groups@[i]).wf(),
    {
        let ghost before = batcher.pending();
        let ghost row = record@;
        proof {
            batcher.lemma_pending_below_capacity();
        }
        assert(all.take(it.index() + 1) =~= all.take(it.index() as int).push(row));
        match batcher.push(record) {
            Some(group) => {
                proof {
                    lemma_groups_append(done, group@, size, groups@.len() as nat);
                    assert((groups@.len() + 1) * size == groups@.len() * size + size)
                        by (nonlinear_arith);
                    assert(groups_of(groups@.push(group)) =~= groups_of(groups@).push(group@));
                    assert(done + group@ + Seq::<Row>::empty() =~= (done + before).push(row));
                    done = done + group@;
                }
                groups.push(group);
            },
            None => {
                assert(done + before.push(row) =~= (done + before).push(row));
            },
        }
    }
    assert(all.take(records@.len() as int) =~= all);
    let ghost pending = batcher.pending();
    proof {
        batcher.lemma_pending_below_capacity();
    }
    match batcher.finish() {
        Some(group) => {
            proof {
                lemma_groups_append(done, group@, size, groups@.len() as nat);
                assert(groups_of(groups@.push(group)) =~= groups_of(groups@).push(group@));
            }
            groups.push(group);
        },
        None => {
            assert(done + pending =~= done);
        },
    }
    groups
}

} // verus!
