// A one-shot completion signal: `CompleteHandle::resolve` marks an event as
// done, and the paired `Completion` is a future that becomes ready once it
// has.
//
//   pair      the handle and the future, over atomics
//   protocol  the same protocol as a transition system over plain values
//   laws      what every run of that system guarantees
//   trusted   the outside types and functions that the pair calls
pub mod protocol;
pub mod laws;
pub mod trusted;
pub mod pair;

pub use pair::{CompleteHandle, Completion};
pub use protocol::readiness;
