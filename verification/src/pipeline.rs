//! The conversion of archives that are held in memory, one after the other:
//! what the concurrent pipeline produces up to the order of its rows.

use vstd::prelude::*;
use crate::config::Args;
use crate::error::Error;
use crate::filter::{
    check_filter, entry_selected, filter_is_valid, plan_for, select_entry, spec_is_filter_error,
    EntryPlan,
};
use crate::arrival::{is_interleaving, lemma_in_order_is_interleaving, lemma_interleaving_keeps_items};
use crate::layout::{
    batch_all, groups_of, lemma_arrival_order_is_immaterial, lemma_group_count,
    lemma_groups_keep_rows, rows_of, spec_group_count, spec_row_groups,
};
use crate::digest::spec_content_hash;
use crate::record::{spec_record, text_of, Row, UnzippedFile};
use crate::rowgroup::RowGroup;

verus! {

/// One entry of an archive as plain data.
pub struct Entry {
    pub name: Seq<char>,
    pub is_dir: bool,
    pub content: Seq<u8>,
}

/// One entry of an archive: its name, whether it is a directory, and its
/// content.
#[derive(Debug)]
pub struct ArchiveEntry {
    pub name: String,
    pub is_dir: bool,
    pub content: Vec<u8>,
}

impl View for ArchiveEntry {
    type V = Entry;

    open spec fn view(&self) -> Entry {
        Entry { name: self.name@, is_dir: self.is_dir, content: self.content@ }
    }
}

/// An archive as plain data.
pub struct ArchiveContent {
    pub path: Seq<char>,
    pub entries: Seq<Entry>,
}

/// An archive: the path it was found at and its entries in directory order.
#[derive(Debug)]
pub struct Archive {
    pub path: String,
    pub entries: Vec<ArchiveEntry>,
}

impl View for Archive {
    type V = ArchiveContent;

    open spec fn view(&self) -> ArchiveContent {
        ArchiveContent {
            path: self.path@,
            entries: Seq::new(self.entries@.len(), |i: int| self.entries@[i]@),
        }
    }
}

/// A list of archives as plain data.
pub open spec fn archives_of(archives: Seq<Archive>) -> Seq<ArchiveContent> {
    Seq::new(archives.len(), |i: int| archives[i]@)
}

/// The rows that one archive gives: one for each entry that is selected, in
/// the archive's own order.
pub open spec fn spec_extract(args: Args, path: Seq<char>, entries: Seq<Entry>) -> Seq<Row>
    decreases entries.len(),
{
    if entries.len() == 0 {
        Seq::empty()
    } else {
        let before = spec_extract(args, path, entries.drop_last());
        let entry = entries.last();
        if entry_selected(text_of(args.glob), entry.name, entry.is_dir) {
            before.push(spec_record(args, path, entry.name, entry.content))
        } else {
            before
        }
    }
}

/// The number of entries that are selected: those that are no directory and
/// whose name passes the filter.
pub open spec fn spec_matching(filter: Option<Seq<char>>, entries: Seq<Entry>) -> nat
    decreases entries.len(),
{
    if entries.len() == 0 {
        0
    } else {
        let before = spec_matching(filter, entries.drop_last());
        if entry_selected(filter, entries.last().name, entries.last().is_dir) {
            before + 1
        } else {
            before
        }
    }
}

/// The rows that a list of archives gives when they are read one after the
/// other.
pub open spec fn spec_extract_all(args: Args, archives: Seq<ArchiveContent>) -> Seq<Row>
    decreases archives.len(),
{
    if archives.len() == 0 {
        Seq::empty()
    } else {
        spec_extract_all(args, archives.drop_last()) + spec_extract(
            args,
            archives.last().path,
            archives.last().entries,
        )
    }
}

/// The number of selected entries over all archives.
pub open spec fn spec_matching_all(filter: Option<Seq<char>>, archives: Seq<ArchiveContent>) -> nat
    decreases archives.len(),
{
    if archives.len() == 0 {
        0
    } else {
        spec_matching_all(filter, archives.drop_last()) + spec_matching(
            filter,
            archives.last().entries,
        )
    }
}

/// An archive gives exactly one row for each selected entry.
pub proof fn lemma_extract_len(args: Args, path: Seq<char>, entries: Seq<Entry>)
    ensures
        spec_extract(args, path, entries).len() == spec_matching(text_of(args.glob), entries),
    decreases entries.len(),
{
    if entries.len() > 0 {
        lemma_extract_len(args, path, entries.drop_last());
    }
}

/// A list of archives gives exactly one row for each selected entry.
pub proof fn lemma_extract_all_len(args: Args, archives: Seq<ArchiveContent>)
    ensures
        spec_extract_all(args, archives).len() == spec_matching_all(
            text_of(args.glob),
            archives,
        ),
    decreases archives.len(),
{
    if archives.len() > 0 {
        lemma_extract_all_len(args, archives.drop_last());
        lemma_extract_len(args, archives.last().path, archives.last().entries);
    }
}

/// The output holds exactly one row for each selected entry, whatever the
/// row group size, in as many groups as that number of rows fills.
pub proof fn lemma_one_row_per_selected_entry(args: Args, archives: Seq<ArchiveContent>, size: nat)
    requires
        size > 0,
    ensures
        spec_row_groups(spec_extract_all(args, archives), size).flatten().len()
            == spec_matching_all(text_of(args.glob), archives),
        spec_row_groups(spec_extract_all(args, archives), size).len() == spec_group_count(
            spec_matching_all(text_of(args.glob), archives),
            size,
        ),
{
    lemma_extract_all_len(args, archives);
    lemma_groups_keep_rows(spec_extract_all(args, archives), size);
    lemma_group_count(spec_extract_all(args, archives), size);
}

/// The rows of each archive, archive by archive: what each archive task
/// sends, in its own order.
pub open spec fn spec_extract_each(args: Args, archives: Seq<ArchiveContent>) -> Seq<Seq<Row>> {
    Seq::new(archives.len(), |i: int| spec_extract(args, archives[i].path, archives[i].entries))
}

/// Reading the archives one after the other gives the rows of each archive
/// in turn.
pub proof fn lemma_extract_each_in_order(args: Args, archives: Seq<ArchiveContent>)
    ensures
        spec_extract_each(args, archives).flatten() == spec_extract_all(args, archives),
    decreases archives.len(),
{
    if archives.len() == 0 {
        assert(spec_extract_each(args, archives).flatten() =~= Seq::<Row>::empty());
    } else {
        let init = spec_extract_each(args, archives.drop_last());
        let last = spec_extract(args, archives.last().path, archives.last().entries);
        lemma_extract_each_in_order(args, archives.drop_last());
        assert(spec_extract_each(args, archives) =~= init.push(last));
        init.lemma_flatten_push(last);
    }
}

/// However the records of the archives interleave on their way to the
/// writer, the output holds the same rows as when the archives are read one
/// after the other, as a multiset, in the same number of row groups, and
/// one row for each selected entry.
pub proof fn lemma_concurrent_run_gives_the_same_rows(
    args: Args,
    archives: Seq<ArchiveContent>,
    arrival: Seq<Row>,
    size: nat,
)
    requires
        size > 0,
        is_interleaving(arrival, spec_extract_each(args, archives)),
    ensures
        spec_row_groups(arrival, size).flatten().to_multiset() == spec_row_groups(
            spec_extract_all(args, archives),
            size,
        ).flatten().to_multiset(),
        spec_row_groups(arrival, size).len() == spec_row_groups(
            spec_extract_all(args, archives),
            size,
        ).len(),
        spec_row_groups(arrival, size).flatten().len() == spec_matching_all(
            text_of(args.glob),
            archives,
        ),
{
    lemma_extract_each_in_order(args, archives);
    lemma_interleaving_keeps_items(arrival, spec_extract_each(args, archives));
    lemma_arrival_order_is_immaterial(arrival, spec_extract_all(args, archives), size);
    lemma_groups_keep_rows(arrival, size);
    lemma_extract_all_len(args, archives);
}

/// Reading the archives one after the other is one of the possible runs.
pub proof fn lemma_in_order_run_is_possible(args: Args, archives: Seq<ArchiveContent>)
    ensures
        is_interleaving(spec_extract_all(args, archives), spec_extract_each(args, archives)),
{
    lemma_extract_each_in_order(args, archives);
    lemma_in_order_is_interleaving(spec_extract_each(args, archives));
}

/// Switching the body off leaves the rows of an archive as they are but for
/// the body, which becomes absent in each: the same number of rows, with the
/// same names, sources and hashes.
pub proof fn lemma_no_body_keeps_rows(
    with_body: Args,
    without_body: Args,
    path: Seq<char>,
    entries: Seq<Entry>,
)
    requires
        !with_body.no_body,
        without_body == (Args { no_body: true, ..with_body }),
    ensures
        spec_extract(without_body, path, entries).len() == spec_extract(
            with_body,
            path,
            entries,
        ).len(),
        forall|i: int|
            0 <= i < spec_extract(with_body, path, entries).len() ==> (#[trigger] spec_extract(
                without_body,
                path,
                entries,
            )[i]) == (Row { body: None, ..spec_extract(with_body, path, entries)[i] }),
    decreases entries.len(),
{
    if entries.len() > 0 {
        lemma_no_body_keeps_rows(with_body, without_body, path, entries.drop_last());
    }
}

/// Switching the body off leaves the rows of the whole output as they are
/// but for the body, which becomes absent in each.
pub proof fn lemma_no_body_keeps_all_rows(
    with_body: Args,
    without_body: Args,
    archives: Seq<ArchiveContent>,
)
    requires
        !with_body.no_body,
        without_body == (Args { no_body: true, ..with_body }),
    ensures
        spec_extract_all(without_body, archives).len() == spec_extract_all(
            with_body,
            archives,
        ).len(),
        forall|i: int|
            0 <= i < spec_extract_all(with_body, archives).len() ==> (#[trigger] spec_extract_all(
                without_body,
                archives,
            )[i]) == (Row { body: None, ..spec_extract_all(with_body, archives)[i] }),
    decreases archives.len(),
{
    if archives.len() > 0 {
        lemma_no_body_keeps_all_rows(with_body, without_body, archives.drop_last());
        lemma_no_body_keeps_rows(
            with_body,
            without_body,
            archives.last().path,
            archives.last().entries,
        );
    }
}

/// A row holds a hash exactly when the hash is switched on, and a body
/// exactly when the body is switched on; a row that holds both holds the
/// hash of that body.
pub proof fn lemma_rows_hash_their_body(args: Args, path: Seq<char>, entries: Seq<Entry>, i: int)
    requires
        0 <= i < spec_extract(args, path, entries).len(),
    ensures
        ({
            let row = spec_extract(args, path, entries)[i];
            &&& row.hash is Some <==> !args.no_hash
            &&& row.body is Some <==> !args.no_body
            &&& row.hash is Some && row.body is Some ==> row.hash == Some(
                spec_content_hash(row.body->Some_0),
            )
        }),
    decreases entries.len(),
{
    if entries.len() > 0 {
        let before = spec_extract(args, path, entries.drop_last());
        if i < before.len() {
            lemma_rows_hash_their_body(args, path, entries.drop_last(), i);
        }
    }
}

/// Extracts the records of one archive, in the archive's own order. Fails
/// exactly when the entry filter is not a valid pattern.
pub fn extract_archive(args: &Args, archive: Archive) -> (records: Result<Vec<UnzippedFile>, Error>)
    ensures
        records is Ok <==> filter_is_valid(text_of(args.glob)),
        records is Ok ==> rows_of(records->Ok_0@) == spec_extract(
            *args,
            archive@.path,
            archive@.entries,
        ),
        records is Err ==> spec_is_filter_error(*args, records->Err_0),
{
    match check_filter(args) {
        Err(err) => {
            return Err(err);
        },
        Ok(_) => {},
    }
    let Archive { path, entries } = archive;
    let ghost all = archive@.entries;
    let mut records: Vec<UnzippedFile> = Vec::new();
    assert(rows_of(records@) =~= spec_extract(*args, path@, all.take(0)));
    for entry in it: entries
        invariant
            filter_is_valid(text_of(args.glob)),
            it.seq() == entries@,
            all.len() == entries@.len(),
            forall|i: int| 0 <= i < all.len() ==> all[i] == entries@[i]@,
            rows_of(records@) == spec_extract(*args, path@, all.take(it.index() as int)),
    {
        let ghost seen = all.take(it.index() + 1);
        let ghost before = rows_of(records@);
        assert(seen.drop_last() =~= all.take(it.index() as int));
        assert(seen.last() == entry@);
        let ArchiveEntry { name, is_dir, content } = entry;
        let selected = match select_entry(args, name.as_str(), is_dir) {
            Ok(selected) => selected,
            Err(err) => {
                return Err(err);
            },
        };
        match plan_for(args, is_dir, selected) {
            EntryPlan::Skip => {},
            EntryPlan::EmitUnread => {
                let record = UnzippedFile::without_content(args, path.as_str(), name);
                records.push(record);
                assert(rows_of(records@) =~= before.push(record@));
            },
            EntryPlan::ReadContent => {
                let record = UnzippedFile::from_content(args, path.as_str(), name, content);
                records.push(record);
                assert(rows_of(records@) =~= before.push(record@));
            },
        }
    }
    assert(all.take(entries@.len() as int) =~= all);
    Ok(records)
}

/// Converts the archives one after the other and cuts the records into row
/// groups. Fails exactly when the entry filter is not a valid pattern.
pub fn convert_in_order(args: &Args, archives: Vec<Archive>) -> (groups: Result<
    Vec<RowGroup>,
    Error,
>)
    requires
        args.row_group_size > 0,
    ensures
        groups is Ok <==> filter_is_valid(text_of(args.glob)),
        groups is Ok ==> groups_of(groups->Ok_0@) == spec_row_groups(
            spec_extract_all(*args, archives_of(archives@)),
            args.row_group_size as nat,
        ),
        groups is Ok ==> forall|i: int|
            0 <= i < groups->Ok_0@.len() ==> (#[trigger] groups->Ok_0@[i]).wf(),
        groups is Err ==> spec_is_filter_error(*args, groups->Err_0),
{
    match check_filter(args) {
        Err(err) => {
            return Err(err);
        },
        Ok(_) => {},
    }
    let ghost all = archives_of(archives@);
    let mut records: Vec<UnzippedFile> = Vec::new();
    assert(rows_of(records@) =~= spec_extract_all(*args, all.take(0)));
    for archive in it: archives
        invariant
            filter_is_valid(text_of(args.glob)),
            it.seq() == archives@,
            all == archives_of(archives@),
            rows_of(records@) == spec_extract_all(*args, all.take(it.index() as int)),
    {
        let ghost seen = all.take(it.index() + 1);
        let ghost before = rows_of(records@);
        assert(seen.drop_last() =~= all.take(it.index() as int));
        assert(seen.last() == archive@);
        let mut found = match extract_archive(args, archive) {
            Ok(found) => found,
            Err(err) => {
                return Err(err);
            },
        };
        let ghost added = rows_of(found@);
        records.append(&mut found);
        assert(rows_of(records@) =~= before + added);
    }
    assert(all.take(archives@.len() as int) =~= all);
    Ok(batch_all(records, args.row_group_size))
}

} // verus!
