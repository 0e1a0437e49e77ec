pub mod attachment;
pub mod server;
pub mod user;
