//! Decision logic of a bridge between an asynchronous host and a
//! single-threaded script engine.
//!
//! The engine lives on a worker thread of its own and is reached only through
//! two mailboxes. Everything that suspends or touches a mailbox belongs to the
//! embedding program; what is decided between two suspensions is decided
//! here: the shapes of the messages, the table that routes each response to
//! the call that waits for it, the phases a worker goes through from start to
//! steady service, and the steps of the agent command line.

pub mod agent;
pub mod handle;
pub mod laws;
pub mod protocol;
pub mod worker;
