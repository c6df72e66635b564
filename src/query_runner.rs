use std::sync::atomic::{AtomicBool, Ordering};
use std::sync::Arc;

use vstd::prelude::*;

use crate::results_buffer::{ring_push, ResultsRingBuffer};
use crate::text::copy_str;

verus! {

/// One result row: each column value rendered as text.
#[derive(Debug, Clone, PartialEq, Eq)]
pub struct QueryRow {
    pub values: Vec<String>,
}

impl QueryRow {
    pub fn new(values: Vec<String>) -> (r: Self)
        ensures
            r.values == values,
    {
        QueryRow { values }
    }
}

/// A failure reported by the query backend, with its text kept as it was.
#[derive(Debug, Clone, PartialEq, Eq)]
pub struct QueryBackendError {
    message: String,
}

impl QueryBackendError {
    pub closed spec fn text(&self) -> Seq<char> {
        self.message@
    }

    pub fn new(message: &str) -> (r: Self)
        ensures
            r.text() == message@,
    {
        QueryBackendError { message: copy_str(message) }
    }

    pub fn message(&self) -> (r: &str)
        ensures
            r@ == self.text(),
    {
        self.message.as_str()
    }
}

#[derive(Debug, Clone, PartialEq, Eq)]
pub enum QueryRunnerError {
    Backend(QueryBackendError),
}

/// A flag shared between the interface and a query worker; once set it stays set.
#[derive(Debug, Clone, Default)]
pub struct CancellationToken {
    cancelled: Arc<AtomicBool>,
}

impl CancellationToken {
    pub fn new() -> (r: Self) {
        CancellationToken { cancelled: Arc::new(AtomicBool::new(false)) }
    }

    pub fn cancel(&self) {
        self.cancelled.store(true, Ordering::SeqCst);
    }

    pub fn is_cancelled(&self) -> (r: bool) {
        self.cancelled.load(Ordering::SeqCst)
    }
}

#[derive(Debug, Clone, Copy, PartialEq, Eq)]
pub struct QueryExecutionSummary {
    pub rows_streamed: u64,
    pub was_cancelled: bool,
    pub elapsed_ms: u64,
}

/// What the worker does next with the row stream.
#[derive(Debug, Clone, Copy, PartialEq, Eq, Structural)]
pub enum StreamStep {
    PullNextRow,
    CancelStream,
    /// The query ran past its time limit: cancel the stream and report a failure.
    TimeOut,
}

/// How long a query may stream before it is given up.
pub const QUERY_TIMEOUT_MS: u64 = 20_000;

/// Streams rows into a ring buffer, one step at a time: the worker asks `next_step` before
/// each row, pulls it, and hands it to `on_row`; cancellation is polled between rows.
#[derive(Debug, Clone, Copy)]
pub struct QueryRunner {
    rows_streamed: u64,
}

impl QueryRunner {
    /// Rows taken from the stream so far.
    pub closed spec fn streamed(&self) -> nat {
        self.rows_streamed as nat
    }

    pub fn new() -> (r: Self)
        ensures
            r.streamed() == 0,
    {
        QueryRunner { rows_streamed: 0 }
    }

    pub fn rows_streamed(&self) -> (r: u64)
        ensures
            r == self.streamed(),
    {
        self.rows_streamed
    }

    /// Cancel once cancellation is requested, give up past the time limit, otherwise pull
    /// the next row.
    pub fn next_step(&self, cancellation_requested: bool, elapsed_ms: u64) -> (r: StreamStep)
        ensures
            cancellation_requested ==> r == StreamStep::CancelStream,
            !cancellation_requested && elapsed_ms > QUERY_TIMEOUT_MS ==> r == StreamStep::TimeOut,
            !cancellation_requested && elapsed_ms <= QUERY_TIMEOUT_MS ==> r == StreamStep::PullNextRow,
    {
        if cancellation_requested {
            StreamStep::CancelStream
        } else if elapsed_ms > QUERY_TIMEOUT_MS {
            StreamStep::TimeOut
        } else {
            StreamStep::PullNextRow
        }
    }

    /// Takes what the stream delivered: a row goes into the buffer and is counted; the end
    /// of the stream yields the summary.
    pub fn on_row(
        &mut self,
        buffer: &mut ResultsRingBuffer<QueryRow>,
        row: Option<QueryRow>,
        elapsed_ms: u64,
    ) -> (r: Option<QueryExecutionSummary>)
        requires
            old(buffer).wf(),
            old(buffer).seen() < u64::MAX,
            old(self).streamed() < u64::MAX,
        ensures
            final(buffer).wf(),
            final(buffer).cap() == old(buffer).cap(),
            match row {
                Some(x) => {
                    &&& r is None
                    &&& final(self).streamed() == old(self).streamed() + 1
                    &&& final(buffer)@ == ring_push(old(buffer).cap(), old(buffer)@, x)
                    &&& final(buffer).seen() == old(buffer).seen() + 1
                },
                None => {
                    &&& r == Some(
                        QueryExecutionSummary {
                            rows_streamed: old(self).streamed() as u64,
                            was_cancelled: false,
                            elapsed_ms,
                        },
                    )
                    &&& final(self).streamed() == old(self).streamed()
                    &&& *final(buffer) == *old(buffer)
                },
            },
    {
        match row {
            Some(x) => {
                buffer.push(x);
                self.rows_streamed = self.rows_streamed + 1;
                None
            },
            None => Some(
                QueryExecutionSummary {
                    rows_streamed: self.rows_streamed,
                    was_cancelled: false,
                    elapsed_ms,
                },
            ),
        }
    }

    /// The summary once the stream was cancelled.
    pub fn on_cancelled(&self, elapsed_ms: u64) -> (r: QueryExecutionSummary)
        ensures
            r == (QueryExecutionSummary {
                rows_streamed: self.streamed() as u64,
                was_cancelled: true,
                elapsed_ms,
            }),
    {
        QueryExecutionSummary { rows_streamed: self.rows_streamed, was_cancelled: true, elapsed_ms }
    }
}

} // verus!
