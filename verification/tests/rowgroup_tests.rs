use zip_to_parquet::layout::batch_all;
use zip_to_parquet::record::UnzippedFile;
use zip_to_parquet::rowgroup::{Batcher, RowGroup};

fn record(i: usize) -> UnzippedFile {
    UnzippedFile {
        name: format!("file{}.txt", i),
        source: if i % 2 == 0 { Some("a.zip".to_string()) } else { None },
        body: if i % 3 == 0 { None } else { Some(vec![i as u8; i]) },
        hash: Some(format!("{:064x}", i)),
    }
}

fn records(n: usize) -> Vec<UnzippedFile> {
    (0..n).map(record).collect()
}

fn assert_columns_parallel(group: &RowGroup) {
    assert_eq!(group.sources.len(), group.names.len());
    assert_eq!(group.bodies.len(), group.names.len());
    assert_eq!(group.hashes.len(), group.names.len());
}

fn assert_row_is(group: &RowGroup, at: usize, expected: &UnzippedFile) {
    assert_eq!(group.names[at], expected.name);
    assert_eq!(group.sources[at], expected.source);
    assert_eq!(group.bodies[at], expected.body);
    assert_eq!(group.hashes[at], expected.hash);
}

#[test]
fn new_row_group_is_empty() {
    let group = RowGroup::new();
    assert_eq!(group.len(), 0);
    assert_columns_parallel(&group);
}

#[test]
fn row_group_push_appends_one_row_to_each_column() {
    let mut group = RowGroup::new();
    group.push(record(1));
    group.push(record(2));
    assert_eq!(group.len(), 2);
    assert_columns_parallel(&group);
    assert_row_is(&group, 0, &record(1));
    assert_row_is(&group, 1, &record(2));
}

#[test]
fn absent_values_stay_absent_in_the_columns() {
    let mut group = RowGroup::new();
    group.push(UnzippedFile { name: "n".to_string(), source: None, body: None, hash: None });
    assert_eq!(group.sources[0], None);
    assert_eq!(group.bodies[0], None);
    assert_eq!(group.hashes[0], None);
}

#[test]
fn batcher_hands_out_a_group_when_it_is_full() {
    let mut batcher = Batcher::new(3);
    assert_eq!(batcher.row_group_size(), 3);
    assert!(batcher.push(record(0)).is_none());
    assert!(batcher.push(record(1)).is_none());
    assert_eq!(batcher.pending_len(), 2);
    let group = batcher.push(record(2)).expect("third record fills the group");
    assert_eq!(group.len(), 3);
    assert_columns_parallel(&group);
    for i in 0..3 {
        assert_row_is(&group, i, &record(i));
    }
    assert_eq!(batcher.pending_len(), 0);
    assert!(batcher.push(record(3)).is_none());
    assert_eq!(batcher.pending_len(), 1);
}

#[test]
fn batcher_of_size_one_hands_out_every_record() {
    let mut batcher = Batcher::new(1);
    for i in 0..4 {
        let group = batcher.push(record(i)).expect("every record fills a group of one");
        assert_eq!(group.len(), 1);
        assert_row_is(&group, 0, &record(i));
    }
    assert!(batcher.finish().is_none());
}

#[test]
fn flush_hands_out_the_partial_group_and_resets() {
    let mut batcher = Batcher::new(4);
    batcher.push(record(0));
    batcher.push(record(1));
    let group = batcher.flush().expect("two records are pending");
    assert_eq!(group.len(), 2);
    assert_row_is(&group, 1, &record(1));
    assert_eq!(batcher.pending_len(), 0);
    assert!(batcher.flush().is_none());
}

#[test]
fn finish_with_nothing_pending_gives_no_group() {
    let batcher = Batcher::new(4);
    assert!(batcher.finish().is_none());
}

#[test]
fn finish_gives_the_last_shorter_group() {
    let mut batcher = Batcher::new(4);
    batcher.push(record(7));
    let group = batcher.finish().expect("one record is pending");
    assert_eq!(group.len(), 1);
    assert_row_is(&group, 0, &record(7));
}

#[test]
fn twelve_records_in_groups_of_four() {
    let groups = batch_all(records(12), 4);
    let sizes: Vec<usize> = groups.iter().map(|g| g.len()).collect();
    assert_eq!(sizes, vec![4, 4, 4]);
}

#[test]
fn ten_records_in_groups_of_four_leave_a_group_of_two() {
    let groups = batch_all(records(10), 4);
    let sizes: Vec<usize> = groups.iter().map(|g| g.len()).collect();
    assert_eq!(sizes, vec![4, 4, 2]);
}

#[test]
fn fewer_records_than_a_group_give_one_group() {
    let groups = batch_all(records(3), 100);
    let sizes: Vec<usize> = groups.iter().map(|g| g.len()).collect();
    assert_eq!(sizes, vec![3]);
}

#[test]
fn no_records_give_no_group() {
    assert!(batch_all(Vec::new(), 4).is_empty());
}

#[test]
fn group_count_is_the_row_count_divided_by_the_size_rounded_up() {
    for size in 1..8usize {
        for n in 0..30usize {
            let groups = batch_all(records(n), size);
            assert_eq!(groups.len(), (n + size - 1) / size);
            let total: usize = groups.iter().map(|g| g.len()).sum();
            assert_eq!(total, n);
            if n > 0 {
                let last = groups.last().unwrap().len();
                assert_eq!(last, if n % size == 0 { size } else { n % size });
                for group in &groups[..groups.len() - 1] {
                    assert_eq!(group.len(), size);
                }
            }
        }
    }
}

#[test]
fn rows_keep_their_order_across_groups() {
    let groups = batch_all(records(10), 4);
    let mut at = 0;
    for group in &groups {
        assert_columns_parallel(group);
        for i in 0..group.len() {
            assert_row_is(group, i, &record(at));
            at += 1;
        }
    }
    assert_eq!(at, 10);
}
