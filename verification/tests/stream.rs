use cluster_trace::iter::{RowStream, ShardCursor, next_record, shard_file_name};
use cluster_trace::job_events::{JOB_EVENT_FILE_COUNT, JobEvent, JobEventType};
use cluster_trace::machine_events::MACHINE_EVENT_FILE_COUNT;
use cluster_trace::schema::DecodeError;
use cluster_trace::task_events::TASK_EVENT_FILE_COUNT;
use cluster_trace::task_usage::TASK_USAGE_FILE_COUNT;

fn row(fields: &[&str]) -> Vec<String> {
    fields.iter().map(|s| s.to_string()).collect()
}

#[test]
fn shard_file_names() {
    assert_eq!(
        shard_file_name("/trace/job_events", 7, 500),
        "/trace/job_events/part-00007-of-00500.csv".to_string()
    );
    assert_eq!(
        shard_file_name("d", 0, 1),
        "d/part-00000-of-00001.csv".to_string()
    );
    assert_eq!(
        shard_file_name("d", 123456, 99),
        "d/part-123456-of-00099.csv".to_string()
    );
}

#[test]
fn table_shard_counts() {
    assert_eq!(JOB_EVENT_FILE_COUNT, 500);
    assert_eq!(MACHINE_EVENT_FILE_COUNT, 1);
    assert_eq!(TASK_EVENT_FILE_COUNT, 500);
    assert_eq!(TASK_USAGE_FILE_COUNT, 500);
}

#[test]
fn two_shards_in_order() {
    let shard0 = vec![row(&["A"]), row(&["B"])];
    let shard1 = vec![row(&["C"]), row(&["D"]), row(&["E"])];
    let mut stream = RowStream::new(vec![shard0, shard1]);
    let mut seen: Vec<String> = Vec::new();
    while let Some(r) = stream.next() {
        seen.push(r[0].clone());
    }
    assert_eq!(seen, vec!["A", "B", "C", "D", "E"]);
}

#[test]
fn stream_length_is_sum_of_shard_lengths() {
    let shards = vec![
        vec![row(&["a"]), row(&["b"])],
        vec![],
        vec![row(&["c"]), row(&["d"]), row(&["e"])],
        vec![],
    ];
    let mut stream = RowStream::new(shards);
    let mut n = 0;
    while stream.next().is_some() {
        n += 1;
    }
    assert_eq!(n, 5);
}

#[test]
fn end_of_sequence_is_permanent() {
    let mut stream = RowStream::new(vec![vec![row(&["only"])]]);
    assert!(stream.next().is_some());
    assert!(stream.next().is_none());
    assert!(stream.next().is_none());
    assert!(stream.next().is_none());
}

#[test]
fn empty_shards_yield_nothing() {
    let mut stream = RowStream::new(vec![vec![], vec![], vec![]]);
    assert!(stream.next().is_none());
    assert!(stream.next().is_none());
}

#[test]
fn cursor_walks_shards_in_ascending_order() {
    let mut cursor = ShardCursor::new(3);
    assert!(cursor.is_active());
    assert_eq!(cursor.current_shard(), 0);
    assert!(cursor.advance_shard());
    assert_eq!(cursor.current_shard(), 1);
    assert!(cursor.advance_shard());
    assert_eq!(cursor.current_shard(), 2);
    assert!(!cursor.advance_shard());
    assert!(cursor.has_ended());
    assert!(!cursor.is_active());
}

#[test]
fn cursor_open_failure_is_fatal() {
    let mut cursor = ShardCursor::new(500);
    cursor.mark_open_failed();
    assert!(cursor.has_failed());
    assert!(!cursor.is_active());
    assert!(!cursor.has_ended());
    assert_eq!(cursor.current_shard(), 0);
}

#[test]
fn cursor_names_the_current_file() {
    let mut cursor = ShardCursor::new(500);
    assert_eq!(
        cursor.current_file_name("/t/task_events"),
        "/t/task_events/part-00000-of-00500.csv".to_string()
    );
    cursor.advance_shard();
    assert_eq!(
        cursor.current_file_name("/t/task_events"),
        "/t/task_events/part-00001-of-00500.csv".to_string()
    );
}

#[test]
fn typed_record_stream() {
    let shard0 = vec![
        row(&["100", "", "42", "4", "alice", "2", "jn", "ljn"]),
        row(&["101", "", "43", "9", "", "", "", ""]),
    ];
    let shard1 = vec![row(&["102", "", "44", "0", "", "", "", ""])];
    let mut stream = RowStream::new(vec![shard0, shard1]);

    let first: Result<JobEvent, DecodeError> = next_record(&mut stream).unwrap();
    let first = first.unwrap();
    assert_eq!(first.time, 100);
    assert_eq!(first.event_type, JobEventType::Finish);

    let second: Option<Result<JobEvent, DecodeError>> = next_record(&mut stream);
    assert_eq!(
        second,
        Some(Err(DecodeError::UnknownEnumCode { column: 3 }))
    );

    let third: Result<JobEvent, DecodeError> = next_record(&mut stream).unwrap();
    let third = third.unwrap();
    assert_eq!(third.time, 102);
    assert_eq!(third.event_type, JobEventType::Submit);

    let done: Option<Result<JobEvent, DecodeError>> = next_record(&mut stream);
    assert!(done.is_none());
    let done_again: Option<Result<JobEvent, DecodeError>> = next_record(&mut stream);
    assert!(done_again.is_none());
}
