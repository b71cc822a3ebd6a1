//! A client for the local GameSense engine: the typed requests of its
//! protocol, the JSON bodies they are sent as, the decoding of the engine's
//! one-key answers, and the bookkeeping of the heartbeat task.

use vstd::prelude::*;

pub mod envelope;
pub mod error;
pub mod heartbeat;
pub mod raw_client;
pub mod request;
pub mod session;
pub mod wire;
