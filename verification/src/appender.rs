//! The handle through which synthetic lines are injected.

use vstd::prelude::*;

verus! {

/// Declares tokio's unbounded sender so that the appender can hold one.
/// The type stays opaque.
#[verifier::external_type_specification]
#[verifier::external_body]
#[verifier::reject_recursive_types(T)]
pub struct ExUnboundedSender<T>(tokio::sync::mpsc::UnboundedSender<T>);

/// Relies on `tokio::sync::mpsc::UnboundedSender::clone`: a clone is a
/// further sending end of the same channel. The type is opaque here, so
/// nothing more is stated of the result.
pub assume_specification<T>[ <tokio::sync::mpsc::UnboundedSender<T> as Clone>::clone ](
    tx: &tokio::sync::mpsc::UnboundedSender<T>,
) -> tokio::sync::mpsc::UnboundedSender<T>;

/// Relies on `tokio::sync::mpsc::UnboundedSender::send`: queues the line
/// for the receiving task when the receiver still exists, and otherwise
/// hands the line back in an error, which is dropped here — an append
/// after the injector has ended is a silent no-op.
#[verifier::external_body]
fn send_line(tx: &tokio::sync::mpsc::UnboundedSender<String>, line: String) {
    let _ = tx.send(line);
}

/// Handle to append additional lines into the child's stdout stream.
///
/// Lines queued here are drained by the injector task, which frames each
/// with exactly one trailing newline (see
/// [`crate::engine::injection_bytes`]) and writes it, whole, through the
/// shared writer into the visible stream.
///
/// The handle is cheap to clone; every clone feeds the same queue.
#[derive(Clone)]
pub struct StdoutAppender {
    tx: tokio::sync::mpsc::UnboundedSender<String>,
}

impl StdoutAppender {
    /// Binds an appender to the sending end of an injection queue.
    pub fn from_sender(tx: tokio::sync::mpsc::UnboundedSender<String>) -> (r: StdoutAppender) {
        StdoutAppender { tx }
    }

    /// Queues one line for injection into the visible stream.
    /// Best-effort: once the injector task has ended, the line is
    /// silently dropped.
    pub fn append_line(&self, line: String) {
        send_line(&self.tx, line);
    }
}

} // verus!
