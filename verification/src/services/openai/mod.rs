//! OpenAI services.
pub mod laws;
pub mod llm;
pub mod media;
pub mod realtime;
pub mod realtime_events;
pub mod realtime_laws;
pub mod realtime_receive;
pub mod realtime_service;
pub mod realtime_state;
pub mod session_laws;
pub mod settings;
pub mod stream_laws;
pub mod wire;
pub mod wire_laws;
