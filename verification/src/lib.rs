//! Decision core of a TCP/UDP relay that keeps a pool of connections to its
//! remote end open in advance.
//!
//! What the relay decides stands here as verified code on plain values:
//! how its configuration is merged and checked, how events are routed, how
//! bytes are moved between two sockets, when a connection is closed, how the
//! pool is kept filled, and what is logged. Sockets, clocks and threads belong
//! to the program around it.

pub mod accept;
pub mod config;
pub mod config_laws;
pub mod conn;
pub mod conn_laws;
pub mod conn_step_laws;
pub mod epoll;
pub mod expiry;
pub mod log;
pub mod overrides;
pub mod pool;
pub mod pump;
pub mod slab;
pub mod sock;
pub mod text;
pub mod time;
pub mod token;
pub mod udp;
pub mod watch;
