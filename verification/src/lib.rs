pub mod addresses;
pub mod broadcast;
mod bytes;
pub mod cache;
pub mod config;
pub mod errors;
pub mod pagination;
pub mod poller;
pub mod store;
pub mod stream;
