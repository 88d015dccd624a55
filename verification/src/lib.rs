//! Control logic of a named background instance: the wire protocol of its
//! control socket, the naming of its two files, and the decisions of the
//! daemon and of its clients, each as a step function that a driver feeds
//! with what happened outside.

pub mod client;
pub mod daemon;
pub mod instance;
pub mod model;
pub mod protocol;
