//! Decode and presentation pipeline of a media player: bounded queues, per-source
//! playback state and the clock-driven scheduler that paces decoded pictures.

pub mod analyzer_state;
pub mod decode_thread;
pub mod filter;
pub mod movie_state;
pub mod packet_thread;
pub mod pipeline;
pub mod platform;
pub mod player;
pub mod queue;
pub mod record_state;
pub mod timing;
