pub mod agent_connection;
pub mod agent_connection_manager;
pub mod agent_server;
