use zip_to_parquet::config::Args;
use zip_to_parquet::error::Error;
use zip_to_parquet::producer::{Producer, ProducerAction, ProducerEvent, ProducerPhase};

fn args(glob: Option<&str>, no_body: bool, no_hash: bool) -> Args {
    Args {
        input: Vec::new(),
        output: None,
        stdout: true,
        no_body,
        no_source: false,
        no_hash,
        simple: true,
        glob: glob.map(|g| g.to_string()),
        row_group_size: 10,
    }
}

fn producer(glob: Option<&str>, no_body: bool, no_hash: bool, entries: usize) -> Producer {
    Producer::new(args(glob, no_body, no_hash), "in.zip".to_string(), entries).unwrap()
}

fn opened(name: &str, is_dir: bool) -> ProducerEvent {
    ProducerEvent::Opened { name: name.to_string(), is_dir }
}

#[test]
fn producer_with_invalid_filter_is_refused() {
    let result = Producer::new(args(Some("*.{txt"), false, false), "in.zip".to_string(), 3);
    assert!(matches!(result, Err(Error::InvalidWaxGlob { .. })));
}

#[test]
fn new_producer_polls_first() {
    assert_eq!(producer(None, false, false, 3).phase(), ProducerPhase::Polling);
}

#[test]
fn clear_flag_opens_the_next_entry() {
    let mut p = producer(None, false, false, 3);
    assert!(matches!(p.step(ProducerEvent::Polled { cancelled: false }), ProducerAction::Open(0)));
    assert_eq!(p.phase(), ProducerPhase::Opening);
}

#[test]
fn set_flag_stops_without_sending() {
    let mut p = producer(None, false, false, 3);
    assert!(matches!(p.step(ProducerEvent::Polled { cancelled: true }), ProducerAction::Stop));
    assert_eq!(p.phase(), ProducerPhase::Stopped);
    assert!(matches!(p.step(ProducerEvent::Polled { cancelled: false }), ProducerAction::Done));
    assert!(matches!(p.step(opened("a.txt", false)), ProducerAction::Done));
}

#[test]
fn empty_archive_finishes_at_once() {
    let mut p = producer(None, false, false, 0);
    assert!(matches!(p.step(ProducerEvent::Polled { cancelled: false }), ProducerAction::Finish));
    assert_eq!(p.phase(), ProducerPhase::Finished);
}

#[test]
fn directory_is_skipped() {
    let mut p = producer(None, false, false, 2);
    p.step(ProducerEvent::Polled { cancelled: false });
    assert!(matches!(p.step(opened("dir/", true)), ProducerAction::Poll));
    assert!(matches!(p.step(ProducerEvent::Polled { cancelled: false }), ProducerAction::Open(1)));
}

#[test]
fn name_that_fails_the_filter_is_skipped() {
    let mut p = producer(Some("*.txt"), false, false, 2);
    p.step(ProducerEvent::Polled { cancelled: false });
    assert!(matches!(p.step(opened("b.bin", false)), ProducerAction::Poll));
}

#[test]
fn selected_entry_is_read_then_sent() {
    let mut p = producer(Some("*.txt"), false, false, 1);
    p.step(ProducerEvent::Polled { cancelled: false });
    assert!(matches!(p.step(opened("a.txt", false)), ProducerAction::Read(0)));
    assert_eq!(p.phase(), ProducerPhase::Reading);
    match p.step(ProducerEvent::Read(b"hello".to_vec())) {
        ProducerAction::Send(record) => {
            assert_eq!(record.name, "a.txt");
            assert_eq!(record.source, Some("in.zip".to_string()));
            assert_eq!(record.body, Some(b"hello".to_vec()));
            assert_eq!(
                record.hash,
                Some("2cf24dba5fb0a30e26e83b2ac5b9e29e1b161e5c1fa7425e73043362938b9824".to_string())
            );
        }
        other => panic!("unexpected action: {:?}", other),
    }
    assert!(matches!(p.step(ProducerEvent::Sent), ProducerAction::Poll));
    assert!(matches!(p.step(ProducerEvent::Polled { cancelled: false }), ProducerAction::Finish));
}

#[test]
fn content_is_not_read_when_body_and_hash_are_off() {
    let mut p = producer(None, true, true, 1);
    p.step(ProducerEvent::Polled { cancelled: false });
    match p.step(opened("a.txt", false)) {
        ProducerAction::Send(record) => {
            assert_eq!(record.name, "a.txt");
            assert_eq!(record.body, None);
            assert_eq!(record.hash, None);
        }
        other => panic!("unexpected action: {:?}", other),
    }
}

#[test]
fn failure_fails_the_task() {
    let mut p = producer(None, false, false, 2);
    p.step(ProducerEvent::Polled { cancelled: false });
    p.step(opened("a.txt", false));
    assert!(matches!(p.step(ProducerEvent::Failed), ProducerAction::Fail));
    assert_eq!(p.phase(), ProducerPhase::Failed);
    assert!(matches!(p.step(ProducerEvent::Sent), ProducerAction::Done));
}

#[test]
fn producer_event_out_of_turn_fails_the_task() {
    let mut p = producer(None, false, false, 2);
    assert!(matches!(p.step(ProducerEvent::Sent), ProducerAction::Fail));
}

#[test]
fn cancellation_is_seen_only_between_entries() {
    let mut p = producer(None, false, false, 2);
    p.step(ProducerEvent::Polled { cancelled: false });
    p.step(opened("a.txt", false));
    assert!(matches!(p.step(ProducerEvent::Read(Vec::new())), ProducerAction::Send(_)));
    assert!(matches!(p.step(ProducerEvent::Sent), ProducerAction::Poll));
    assert!(matches!(p.step(ProducerEvent::Polled { cancelled: true }), ProducerAction::Stop));
}

#[test]
fn uncancelled_producer_sends_the_selected_entries_in_order() {
    let entries: Vec<(&str, bool, &[u8])> = vec![
        ("a.txt", false, b"hello"),
        ("dir/", true, b""),
        ("b.bin", false, b"\x00\x01"),
        ("c.txt", false, b""),
    ];
    let mut p = producer(Some("*.txt"), false, false, entries.len());
    let mut sent: Vec<String> = Vec::new();
    let mut action = ProducerAction::Poll;
    let mut finished = false;
    for _ in 0..100 {
        let event = match action {
            ProducerAction::Poll => ProducerEvent::Polled { cancelled: false },
            ProducerAction::Open(i) => opened(entries[i].0, entries[i].1),
            ProducerAction::Read(i) => ProducerEvent::Read(entries[i].2.to_vec()),
            ProducerAction::Send(record) => {
                sent.push(record.name);
                ProducerEvent::Sent
            }
            ProducerAction::Finish => {
                finished = true;
                break;
            }
            other => panic!("unexpected action: {:?}", other),
        };
        action = p.step(event);
    }
    assert!(finished);
    assert_eq!(sent, vec!["a.txt", "c.txt"]);
}
