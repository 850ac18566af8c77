//! Row groups: batches of records held as four parallel columns, and the
//! batcher that cuts a stream of records into them.

use vstd::prelude::*;
use crate::record::{bytes_of, text_of, Row, UnzippedFile};

verus! {

/// A batch of records as parallel columns. Row `i` of the group is made of
/// the `i`-th value of each column.
#[derive(Debug)]
pub struct RowGroup {
    pub names: Vec<String>,
    pub sources: Vec<Option<String>>,
    pub bodies: Vec<Option<Vec<u8>>>,
    pub hashes: Vec<Option<String>>,
}

impl View for RowGroup {
    type V = Seq<Row>;

    open spec fn view(&self) -> Seq<Row> {
        Seq::new(
            self.names@.len(),
            |i: int|
                Row {
                    name: self.names@[i]@,
                    source: text_of(self.sources@[i]),
                    body: bytes_of(self.bodies@[i]),
                    hash: text_of(self.hashes@[i]),
                },
        )
    }
}

impl RowGroup {
    /// All four columns have the same length.
    pub open spec fn wf(&self) -> bool {
        &&& self.sources@.len() == self.names@.len()
        &&& self.bodies@.len() == self.names@.len()
        &&& self.hashes@.len() == self.names@.len()
    }

    /// An empty group with freshly allocated columns.
    pub fn new() -> (group: RowGroup)
        ensures
            group.wf(),
            group@ == Seq::<Row>::empty(),
    {
        let group = RowGroup {
            names: Vec::new(),
            sources: Vec::new(),
            bodies: Vec::new(),
            hashes: Vec::new(),
        };
        assert(group@ =~= Seq::<Row>::empty());
        group
    }

    /// The number of rows.
    pub fn len(&self) -> (n: usize)
        ensures
            n == self@.len(),
    {
        self.names.len()
    }

    /// Appends one record as the last row.
    pub fn push(&mut self, record: UnzippedFile)
        requires
            old(self).wf(),
        ensures
            final(self).wf(),
            final(self)@ == old(self)@.push(record@),
    {
        self.names.push(record.name);
        self.sources.push(record.source);
        self.bodies.push(record.body);
        self.hashes.push(record.hash);
        assert(self@ =~= old(self)@.push(record@));
    }
}

/// Collects records until a row group is full.
#[derive(Debug)]
pub struct Batcher {
    row_group_size: usize,
    pending: RowGroup,
}

impl Batcher {
    /// The number of records in a full row group.
    pub closed spec fn capacity(&self) -> nat {
        self.row_group_size as nat
    }

    /// The records received since the last full group, oldest first.
    pub closed spec fn pending(&self) -> Seq<Row> {
        self.pending@
    }

    /// The capacity is positive and the batcher never holds a full group.
    pub closed spec fn wf(&self) -> bool {
        &&& self.row_group_size > 0
        &&& self.pending.wf()
        &&& self.pending@.len() < self.row_group_size
    }

    /// A batcher always holds fewer records than fill a group.
    pub proof fn lemma_pending_below_capacity(&self)
        requires
            self.wf(),
        ensures
            self.pending().len() < self.capacity(),
    {
    }

    /// A batcher with nothing pending.
    pub fn new(row_group_size: usize) -> (batcher: Batcher)
        requires
            row_group_size > 0,
        ensures
            batcher.wf(),
            batcher.capacity() == row_group_size,
            batcher.pending() == Seq::<Row>::empty(),
    {
        Batcher { row_group_size, pending: RowGroup::new() }
    }

    /// The number of records in a full row group.
    pub fn row_group_size(&self) -> (size: usize)
        ensures
            size == self.capacity(),
    {
        self.row_group_size
    }

    /// The number of records waiting for their group to fill.
    pub fn pending_len(&self) -> (n: usize)
        ensures
            n == self.pending().len(),
    {
        self.pending.len()
    }

    /// Takes one record. When it fills the group, the group is handed out
    /// and the batcher starts over with fresh, empty columns.
    pub fn push(&mut self, record: UnzippedFile) -> (full: Option<RowGroup>)
        requires
            old(self).wf(),
        ensures
            final(self).wf(),
            final(self).capacity() == old(self).capacity(),
            full is Some <==> old(self).pending().len() + 1 == old(self).capacity(),
            old(self).pending().len() + 1 == old(self).capacity() ==> full is Some
                && full->Some_0.wf() && full->Some_0@ == old(self).pending().push(record@)
                && final(self).pending() == Seq::<Row>::empty(),
            old(self).pending().len() + 1 < old(self).capacity() ==> full is None
                && final(self).pending() == old(self).pending().push(record@),
    {
        self.pending.push(record);
        if self.pending.len() >= self.row_group_size {
            let mut group = RowGroup::new();
            std::mem::swap(&mut self.pending, &mut group);
            Some(group)
        } else {
            None
        }
    }

    /// Hands out what is pending as a shorter group and starts over with
    /// fresh, empty columns. Nothing pending gives no group.
    pub fn flush(&mut self) -> (partial: Option<RowGroup>)
        requires
            old(self).wf(),
        ensures
            final(self).wf(),
            final(self).capacity() == old(self).capacity(),
            final(self).pending() == Seq::<Row>::empty(),
            old(self).pending().len() == 0 ==> partial is None,
            old(self).pending().len() > 0 ==> partial is Some && partial->Some_0.wf()
                && partial->Some_0@ == old(self).pending(),
    {
        if self.pending.len() > 0 {
            let mut group = RowGroup::new();
            std::mem::swap(&mut self.pending, &mut group);
            Some(group)
        } else {
            assert(self.pending@ =~= Seq::<Row>::empty());
            None
        }
    }

    /// Ends the stream: what is pending becomes the last, shorter group.
    /// Nothing pending gives no group.
    pub fn finish(self) -> (last: Option<RowGroup>)
        requires
            self.wf(),
        ensures
            self.pending().len() == 0 ==> last is None,
            self.pending().len() > 0 ==> last is Some && last->Some_0.wf() && last->Some_0@
                == self.pending(),
    {
        let mut batcher = self;
        batcher.flush()
    }
}

} // verus!
