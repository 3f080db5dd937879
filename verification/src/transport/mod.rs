//! Transports: audio and video in and out of a pipeline.
pub mod audio_output;
pub mod audio_player;
pub mod clock;
pub mod error;
pub mod image;
pub mod input;
pub mod local;
pub mod media_laws;
pub mod media_sender;
pub mod mic_input;
pub mod output;
pub mod output_laws;
pub mod params;
pub mod pcm;
pub mod queue_laws;
pub mod sender_laws;
pub mod video;
pub mod wav;
