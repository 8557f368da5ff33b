//! Verified core of a campus network management system: the student agent's
//! mode and lock state machine, its command handling, admission check-in flow,
//! the lock screen, message encryption, and the teacher server's protocol,
//! validation and export rules.

pub mod text;
pub mod agent;
pub mod crypto;
pub mod lock;
pub mod checkin;
pub mod keyhook;
pub mod server;
