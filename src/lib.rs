//! Session, transfer and listing logic behind a remote-shell desktop tool.

pub mod connector;
pub mod digest;
pub mod exec;
pub mod files;
pub mod handles;
pub mod images;
pub mod jsonp;
pub mod listing;
pub mod progress;
pub mod registry;
pub mod server;
pub mod text;
pub mod transfer;
