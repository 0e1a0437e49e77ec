pub mod error;
pub mod lifecycle;
pub mod models;
pub mod mutation;
pub mod permissions;
pub mod resolver;
pub mod server_edit;
