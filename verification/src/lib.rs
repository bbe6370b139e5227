//! Verified core of a child-process stdout duplication utility.
//!
//! The library intercepts a child process's standard output: the original
//! stream is re-threaded through a forwarding path so that external readers
//! of the child's stdout handle keep seeing every byte, a lossily decoded
//! duplicate of the same bytes is published as an asynchronous sequence of
//! text items, and synthetic lines can be injected into the visible stream.
//!
//! The decision logic of that pipeline — what each read event contributes to
//! the visible stream and to the duplicate channel, how injected lines are
//! framed, how the swap of the stdout handle proceeds and fails, and that the
//! shared writer never tears a write — is verified here. The surrounding
//! asynchronous plumbing (pipe creation, task spawning, awaiting) drives
//! these functions from outside the verified core.

pub mod appender;
pub mod engine;
pub mod errors;
pub mod follow_up;
pub mod interleave;
pub mod profile;
pub mod setup;
pub mod sink;
