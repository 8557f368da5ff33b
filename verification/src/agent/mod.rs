pub mod api;
pub mod config;
pub mod mode;
pub mod command_handler;
pub mod websocket;
pub mod attendance;
pub mod student_auth;
pub mod heartbeat;
pub mod register;
pub mod inspection;
pub mod hardware;
pub mod process_guard;
pub mod discovery;
