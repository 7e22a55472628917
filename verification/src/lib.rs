//! Engine of a tool for exercising raw TCP and UDP endpoints: payload codec,
//! live session and replay state machines, and the events they publish.

pub mod codec;
pub mod config;
pub mod event;
pub mod log;
pub mod record;
pub mod replay;
pub mod replay_laws;
pub mod session;
pub mod session_laws;
pub mod text;
pub mod types;
pub mod udp;
pub mod window;
