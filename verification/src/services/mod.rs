//! Services: speech recognition, speech synthesis and language models.
pub mod action;
pub mod llm;
pub mod openai;
pub mod service_base;
pub mod settings;
pub mod settings_laws;
pub mod speech_laws;
pub mod stt;
pub mod text_aggregator;
pub mod text_laws;
pub mod tts;
pub mod tts_laws;
pub mod whisper;
