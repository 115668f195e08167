//! A relay between unprivileged desktop sessions and a privileged identity
//! broker: the request envelope and its framing, the decisions of a socket
//! connection and of the relay that talks to it, and the operation tables of
//! the bus interfaces.

pub mod broker_proto;
pub mod bus;
pub mod codec;
pub mod device_broker;
pub mod framing;
pub mod freedesktop;
pub mod himmelblau_broker;
pub mod round_trip;
pub mod service;
pub mod session_broker;
pub mod wire;
