pub mod protocol;
pub mod networking;
pub mod server;
