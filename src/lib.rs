//! A userspace filesystem protocol driver: decodes kernel requests, dispatches them to a
//! filesystem implementation and frames the replies.

pub mod filesystem;
pub mod memory;
pub mod reply;
pub mod request;
pub mod session;
pub mod types;
pub mod wire;

