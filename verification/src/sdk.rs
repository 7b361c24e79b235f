pub mod protocol;
pub mod networking;
pub mod agent;
pub mod server;
