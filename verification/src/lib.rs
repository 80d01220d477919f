pub mod history;
pub mod identity;
pub mod server;
