use myr::query_runner::{CancellationToken, QueryBackendError, QueryRow, QueryRunner, StreamStep};
use myr::results_buffer::ResultsRingBuffer;

fn row(v: &str) -> QueryRow {
    QueryRow::new(vec![v.to_string()])
}

#[test]
fn streams_rows_into_buffer_with_bounded_memory() {
    let cancellation = CancellationToken::new();
    let mut runner = QueryRunner::new();
    let mut buffer = ResultsRingBuffer::new(2);
    let mut stream = vec![row("1"), row("2"), row("3")].into_iter();
    let summary = loop {
        match runner.next_step(cancellation.is_cancelled(), 5) {
            StreamStep::PullNextRow => {
                if let Some(summary) = runner.on_row(&mut buffer, stream.next(), 5) {
                    break summary;
                }
            }
            StreamStep::CancelStream => break runner.on_cancelled(5),
            StreamStep::TimeOut => panic!("no timeout expected"),
        }
    };
    assert_eq!(summary.rows_streamed, 3);
    assert!(!summary.was_cancelled);
    assert_eq!(buffer.len(), 2);
    assert_eq!(buffer.get(0).map(|r| &r.values[0]), Some(&"2".to_string()));
    assert_eq!(buffer.get(1).map(|r| &r.values[0]), Some(&"3".to_string()));
    assert_eq!(buffer.total_rows_seen(), 3);
}

#[test]
fn cancellation_short_circuits_stream_and_invokes_backend_cancel() {
    let cancellation = CancellationToken::new();
    cancellation.cancel();
    let shared = cancellation.clone();
    assert!(shared.is_cancelled());
    let runner = QueryRunner::new();
    let buffer: ResultsRingBuffer<QueryRow> = ResultsRingBuffer::new(2);
    assert_eq!(runner.next_step(cancellation.is_cancelled(), 5), StreamStep::CancelStream);
    let summary = runner.on_cancelled(0);
    assert_eq!(summary.rows_streamed, 0);
    assert!(summary.was_cancelled);
    assert!(buffer.is_empty());
}

#[test]
fn backend_errors_keep_their_text() {
    let err = QueryBackendError::new("server has gone away");
    assert_eq!(err.message(), "server has gone away");
}

#[test]
fn long_queries_time_out() {
    let runner = QueryRunner::new();
    assert_eq!(runner.next_step(false, 20_000), StreamStep::PullNextRow);
    assert_eq!(runner.next_step(false, 20_001), StreamStep::TimeOut);
    assert_eq!(runner.next_step(true, 20_001), StreamStep::CancelStream);
}
