//! The connection by which a tree is watched from the outside.
pub mod socket_connector;
pub mod socket_writer;
