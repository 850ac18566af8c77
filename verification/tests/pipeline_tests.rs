use zip_to_parquet::config::Args;
use zip_to_parquet::error::Error;
use zip_to_parquet::layout::batch_all;
use zip_to_parquet::pipeline::{convert_in_order, extract_archive, Archive, ArchiveEntry};
use zip_to_parquet::record::UnzippedFile;
use zip_to_parquet::rowgroup::RowGroup;

const HELLO_HASH: &str = "2cf24dba5fb0a30e26e83b2ac5b9e29e1b161e5c1fa7425e73043362938b9824";

fn args(glob: Option<&str>, row_group_size: usize) -> Args {
    Args {
        input: vec!["*.zip".to_string()],
        output: Some("out.parquet".to_string()),
        stdout: false,
        no_body: false,
        no_source: false,
        no_hash: false,
        simple: false,
        glob: glob.map(|g| g.to_string()),
        row_group_size,
    }
}

fn file(name: &str, content: &[u8]) -> ArchiveEntry {
    ArchiveEntry { name: name.to_string(), is_dir: false, content: content.to_vec() }
}

fn directory(name: &str) -> ArchiveEntry {
    ArchiveEntry { name: name.to_string(), is_dir: true, content: Vec::new() }
}

fn sample_archive() -> Archive {
    let bytes: Vec<u8> = (0..1000u32).map(|i| (i % 256) as u8).collect();
    Archive {
        path: "sample.zip".to_string(),
        entries: vec![file("a.txt", b"hello"), directory("dir/"), file("b.bin", &bytes)],
    }
}

fn numbered_archive(path: &str, n: usize) -> Archive {
    Archive {
        path: path.to_string(),
        entries: (0..n).map(|i| file(&format!("{}-{}.txt", path, i), &[i as u8])).collect(),
    }
}

fn rows(groups: &[RowGroup]) -> Vec<(String, Option<String>, Option<Vec<u8>>, Option<String>)> {
    let mut all = Vec::new();
    for group in groups {
        for i in 0..group.len() {
            all.push((
                group.names[i].clone(),
                group.sources[i].clone(),
                group.bodies[i].clone(),
                group.hashes[i].clone(),
            ));
        }
    }
    all
}

#[test]
fn text_filter_keeps_the_one_text_file() {
    let groups = convert_in_order(&args(Some("*.txt"), 10), vec![sample_archive()]).unwrap();
    assert_eq!(groups.len(), 1);
    let all = rows(&groups);
    assert_eq!(all.len(), 1);
    assert_eq!(all[0].0, "a.txt");
    assert_eq!(all[0].1, Some("sample.zip".to_string()));
    assert_eq!(all[0].2, Some(b"hello".to_vec()));
    assert_eq!(all[0].3, Some(HELLO_HASH.to_string()));
}

#[test]
fn without_a_filter_every_file_is_kept_and_no_directory() {
    let records = extract_archive(&args(None, 10), sample_archive()).unwrap();
    let names: Vec<&str> = records.iter().map(|r| r.name.as_str()).collect();
    assert_eq!(names, vec!["a.txt", "b.bin"]);
    assert_eq!(records[1].body.as_ref().map(|b| b.len()), Some(1000));
}

#[test]
fn entries_keep_the_order_of_their_archive() {
    let records = extract_archive(&args(None, 10), numbered_archive("x", 6)).unwrap();
    let names: Vec<String> = records.iter().map(|r| r.name.clone()).collect();
    let expected: Vec<String> = (0..6).map(|i| format!("x-{}.txt", i)).collect();
    assert_eq!(names, expected);
}

#[test]
fn two_archives_of_five_and_seven_in_groups_of_four() {
    let archives = vec![numbered_archive("one", 5), numbered_archive("two", 7)];
    let groups = convert_in_order(&args(Some("*.txt"), 4), archives).unwrap();
    let sizes: Vec<usize> = groups.iter().map(|g| g.len()).collect();
    assert_eq!(sizes, vec![4, 4, 4]);
    assert_eq!(rows(&groups).len(), 12);
}

#[test]
fn group_sizes_do_not_depend_on_the_arrival_order() {
    let mut one = extract_archive(&args(None, 4), numbered_archive("one", 5)).unwrap();
    let mut two = extract_archive(&args(None, 4), numbered_archive("two", 7)).unwrap();
    let mut in_order: Vec<UnzippedFile> = Vec::new();
    in_order.extend(one.iter().cloned());
    in_order.extend(two.iter().cloned());
    let mut interleaved: Vec<UnzippedFile> = Vec::new();
    while !one.is_empty() || !two.is_empty() {
        if !two.is_empty() {
            interleaved.push(two.remove(0));
        }
        if !one.is_empty() {
            interleaved.push(one.remove(0));
        }
    }
    let first = batch_all(in_order, 4);
    let second = batch_all(interleaved, 4);
    let first_sizes: Vec<usize> = first.iter().map(|g| g.len()).collect();
    let second_sizes: Vec<usize> = second.iter().map(|g| g.len()).collect();
    assert_eq!(first_sizes, vec![4, 4, 4]);
    assert_eq!(second_sizes, vec![4, 4, 4]);
    let mut first_rows = rows(&first);
    let mut second_rows = rows(&second);
    assert_ne!(first_rows, second_rows);
    first_rows.sort();
    second_rows.sort();
    assert_eq!(first_rows, second_rows);
}

#[test]
fn row_count_does_not_depend_on_the_row_group_size() {
    for size in 1..15usize {
        let archives = vec![numbered_archive("one", 5), sample_archive(), numbered_archive("two", 7)];
        let groups = convert_in_order(&args(None, size), archives).unwrap();
        assert_eq!(rows(&groups).len(), 14);
        assert_eq!(groups.len(), (14 + size - 1) / size);
    }
}

#[test]
fn body_off_only_nulls_the_body() {
    let with_body = args(None, 3);
    let mut without_body = args(None, 3);
    without_body.no_body = true;
    let kept = rows(&convert_in_order(&with_body, vec![sample_archive()]).unwrap());
    let nulled = rows(&convert_in_order(&without_body, vec![sample_archive()]).unwrap());
    assert_eq!(kept.len(), nulled.len());
    for (k, n) in kept.iter().zip(nulled.iter()) {
        assert_eq!(k.0, n.0);
        assert_eq!(k.1, n.1);
        assert!(k.2.is_some());
        assert_eq!(n.2, None);
        assert_eq!(k.3, n.3);
    }
}

#[test]
fn source_and_hash_off_never_change_the_row_count() {
    let mut bare = args(None, 3);
    bare.no_body = true;
    bare.no_source = true;
    bare.no_hash = true;
    let all = rows(&convert_in_order(&bare, vec![sample_archive()]).unwrap());
    assert_eq!(all.len(), 2);
    for row in &all {
        assert_eq!(row.1, None);
        assert_eq!(row.2, None);
        assert_eq!(row.3, None);
    }
    assert_eq!(all[0].0, "a.txt");
    assert_eq!(all[1].0, "b.bin");
}

#[test]
fn hash_column_is_the_digest_of_the_body_column() {
    let groups = convert_in_order(&args(None, 2), vec![sample_archive()]).unwrap();
    for row in rows(&groups) {
        let body = row.2.unwrap();
        assert_eq!(row.3, Some(zip_to_parquet::digest::content_hash(&body)));
    }
}

#[test]
fn invalid_filter_stops_the_conversion() {
    let result = convert_in_order(&args(Some("*.{txt"), 4), vec![sample_archive()]);
    assert!(matches!(result, Err(Error::InvalidWaxGlob { .. })));
    let result = extract_archive(&args(Some("*.{txt"), 4), sample_archive());
    assert!(matches!(result, Err(Error::InvalidWaxGlob { .. })));
}

#[test]
fn no_archives_give_no_group() {
    assert!(convert_in_order(&args(None, 4), Vec::new()).unwrap().is_empty());
}

#[test]
fn archive_of_directories_only_gives_no_row() {
    let archive = Archive {
        path: "dirs.zip".to_string(),
        entries: vec![directory("a/"), directory("a/b/")],
    };
    assert!(convert_in_order(&args(None, 4), vec![archive]).unwrap().is_empty());
}
