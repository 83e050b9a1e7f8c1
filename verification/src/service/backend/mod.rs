//! The link towards the host computer.
pub mod host_link;
