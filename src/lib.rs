//! Session supervision for an echo / heartbeat service over a multiplexed
//! transport with bidirectional streams, unidirectional streams and datagrams.
//!
//! The transport itself lives outside this library. What is here are the
//! decisions: how each acceptance loop reacts to what an accept call yielded,
//! when a session as a whole is over, what an echo handler does with the
//! bytes it read, and when a heartbeat gives up. Each of them is a state
//! machine whose step is stated exactly in its contract; the code that drives
//! the transport performs the actions and feeds back the events.
use vstd::prelude::*;

pub mod accept;
pub mod channel;
pub mod credential;
pub mod echo;
pub mod escape;
pub mod heartbeat;
pub mod session;

verus! {

/// The listening side of the service in its tracing-logged form.
pub struct Server {}

/// The listening side of the service in its plain-printing form.
#[derive(Clone)]
pub struct NetServer {}

} // verus!
