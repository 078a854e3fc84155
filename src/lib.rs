//! Registry and lifecycle logic of an SSH tunnel manager: the tunnel map that
//! serializes view / add / delete / sync / state operations, the listener's
//! lifecycle machine, the choice of SSH authentication, and the wire names of
//! the values exchanged with callers.

pub mod error;
pub mod tunnel;
pub mod model;
pub mod api;
pub mod server;
pub mod laws;
pub mod event;
