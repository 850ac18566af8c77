use zip_to_parquet::config::Destination;
use zip_to_parquet::consumer::{Action, Consumer, Event, Phase};
use zip_to_parquet::record::UnzippedFile;

fn record(i: usize) -> UnzippedFile {
    UnzippedFile { name: format!("f{}", i), source: None, body: None, hash: None }
}

fn to_file(size: usize) -> Consumer {
    Consumer::new(Destination::File("out.parquet".to_string()), size)
}

#[test]
fn new_consumer_is_receiving() {
    assert_eq!(to_file(3).phase(), Phase::Receiving);
}

#[test]
fn records_are_received_until_the_group_is_full() {
    let mut consumer = to_file(3);
    assert!(matches!(consumer.step(Event::Record(record(0))), Action::Receive));
    assert!(matches!(consumer.step(Event::Record(record(1))), Action::Receive));
    match consumer.step(Event::Record(record(2))) {
        Action::Append(group) => {
            assert_eq!(group.names, vec!["f0", "f1", "f2"]);
        }
        other => panic!("unexpected action: {:?}", other),
    }
    assert_eq!(consumer.phase(), Phase::Flushing);
}

#[test]
fn clear_flag_after_a_flush_goes_on_receiving() {
    let mut consumer = to_file(1);
    assert!(matches!(consumer.step(Event::Record(record(0))), Action::Append(_)));
    assert!(matches!(consumer.step(Event::Flushed { cancelled: false }), Action::Receive));
    assert_eq!(consumer.phase(), Phase::Receiving);
}

#[test]
fn set_flag_after_a_flush_aborts_and_deletes_the_file() {
    let mut consumer = to_file(1);
    assert!(matches!(consumer.step(Event::Record(record(0))), Action::Append(_)));
    match consumer.step(Event::Flushed { cancelled: true }) {
        Action::Abort { delete } => assert_eq!(delete, Some("out.parquet".to_string())),
        other => panic!("unexpected action: {:?}", other),
    }
    assert_eq!(consumer.phase(), Phase::Aborted);
}

#[test]
fn abort_of_a_stream_destination_deletes_nothing() {
    let mut consumer = Consumer::new(Destination::Stdout, 1);
    assert!(matches!(consumer.step(Event::Record(record(0))), Action::Append(_)));
    match consumer.step(Event::Flushed { cancelled: true }) {
        Action::Abort { delete } => assert_eq!(delete, None),
        other => panic!("unexpected action: {:?}", other),
    }
}

#[test]
fn exhaustion_flushes_the_partial_group_then_closes() {
    let mut consumer = to_file(4);
    consumer.step(Event::Record(record(0)));
    consumer.step(Event::Record(record(1)));
    match consumer.step(Event::Exhausted) {
        Action::Append(group) => assert_eq!(group.names, vec!["f0", "f1"]),
        other => panic!("unexpected action: {:?}", other),
    }
    assert_eq!(consumer.phase(), Phase::FlushingLast);
    assert!(matches!(consumer.step(Event::Flushed { cancelled: false }), Action::Close));
    assert_eq!(consumer.phase(), Phase::Closed);
}

#[test]
fn exhaustion_with_nothing_pending_closes_at_once() {
    let mut consumer = to_file(4);
    assert!(matches!(consumer.step(Event::Exhausted), Action::Close));
    assert_eq!(consumer.phase(), Phase::Closed);
}

#[test]
fn set_flag_after_the_last_flush_aborts_instead_of_closing() {
    let mut consumer = to_file(4);
    consumer.step(Event::Record(record(0)));
    assert!(matches!(consumer.step(Event::Exhausted), Action::Append(_)));
    assert!(matches!(consumer.step(Event::Flushed { cancelled: true }), Action::Abort { .. }));
    assert_eq!(consumer.phase(), Phase::Aborted);
}

#[test]
fn sink_failure_aborts() {
    let mut consumer = to_file(1);
    assert!(matches!(consumer.step(Event::Record(record(0))), Action::Append(_)));
    match consumer.step(Event::Failed) {
        Action::Abort { delete } => assert_eq!(delete, Some("out.parquet".to_string())),
        other => panic!("unexpected action: {:?}", other),
    }
}

#[test]
fn failure_to_close_aborts() {
    let mut consumer = to_file(1);
    assert!(matches!(consumer.step(Event::Exhausted), Action::Close));
    assert!(matches!(consumer.step(Event::Failed), Action::Abort { .. }));
    assert_eq!(consumer.phase(), Phase::Aborted);
}

#[test]
fn aborted_consumer_asks_for_nothing_more() {
    let mut consumer = to_file(1);
    consumer.step(Event::Record(record(0)));
    consumer.step(Event::Flushed { cancelled: true });
    assert!(matches!(consumer.step(Event::Record(record(1))), Action::Done));
    assert!(matches!(consumer.step(Event::Exhausted), Action::Done));
    assert!(matches!(consumer.step(Event::Flushed { cancelled: false }), Action::Done));
    assert!(matches!(consumer.step(Event::Failed), Action::Done));
    assert_eq!(consumer.phase(), Phase::Aborted);
}

#[test]
fn closed_consumer_asks_for_nothing_more() {
    let mut consumer = to_file(1);
    consumer.step(Event::Exhausted);
    assert!(matches!(consumer.step(Event::Record(record(1))), Action::Done));
    assert!(matches!(consumer.step(Event::Exhausted), Action::Done));
    assert_eq!(consumer.phase(), Phase::Closed);
}

#[test]
fn event_out_of_turn_aborts() {
    let mut consumer = to_file(1);
    assert!(matches!(consumer.step(Event::Flushed { cancelled: false }), Action::Abort { .. }));
    let mut flushing = to_file(1);
    flushing.step(Event::Record(record(0)));
    assert!(matches!(flushing.step(Event::Record(record(1))), Action::Abort { .. }));
}

#[test]
fn uncancelled_run_appends_every_record_once() {
    let mut consumer = to_file(4);
    let mut appended: Vec<String> = Vec::new();
    let mut sizes: Vec<usize> = Vec::new();
    let mut action = Action::Receive;
    let mut next = 0;
    let mut closed = false;
    for _ in 0..100 {
        let event = match action {
            Action::Receive => {
                if next < 10 {
                    next += 1;
                    Event::Record(record(next - 1))
                } else {
                    Event::Exhausted
                }
            }
            Action::Append(group) => {
                sizes.push(group.len());
                appended.extend(group.names);
                Event::Flushed { cancelled: false }
            }
            Action::Close => {
                closed = true;
                break;
            }
            other => panic!("unexpected action: {:?}", other),
        };
        action = consumer.step(event);
    }
    assert!(closed);
    assert_eq!(sizes, vec![4, 4, 2]);
    let expected: Vec<String> = (0..10).map(|i| format!("f{}", i)).collect();
    assert_eq!(appended, expected);
}
