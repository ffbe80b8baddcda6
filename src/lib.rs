//! Extraction of the payload of an `Option` or a `Result` whose state the
//! caller already knows.
//!
//! Each operation demands, as a precondition, that the container is in the
//! state it extracts from (`Some`, `Ok`, or `Err`). A verified caller has to
//! prove that precondition, so a misuse is a verification error rather than a
//! panic or undefined behaviour at run time. The body goes through std's
//! checked extraction, whose check the precondition proves never to fire; an
//! unverified caller that breaks the precondition gets std's panic message
//! (or its own message, for the `expect` forms) instead of a corrupted value.

mod err;
mod value;

pub use err::DebugUnwrapErrExt;
pub use value::DebugUnwrapExt;
