//! The boot cores: flash programming, boot metadata, application check and
//! handover, the sectioned upload protocol, and the service loop's decisions.

pub mod flash;
pub mod launch;
pub mod meta;
pub mod protocol;
pub mod service;
