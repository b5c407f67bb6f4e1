//! The decisions of a Windows screen and audio capture pipeline. Every function here
//! maps plain values to plain values (or steps a state machine), and its behaviour is
//! stated in its contract. The calls that capture, convert, encode and record are made
//! elsewhere; only the text of a system error is asked of the system from here.

pub mod audio_format;
pub mod audio_session;
pub mod bytes;
pub mod capture_session;
pub mod clock;
pub mod d3d_device;
pub mod encoder_config;
pub mod error;
pub mod frame_job;
pub mod frame_laws;
pub mod frame_pool;
pub mod mf_encoder;
pub mod runtime;
pub mod sources;
pub mod spsc_ring;
pub mod text;
pub mod video_processor;
pub mod wasapi_loopback;
pub mod wgc_source;
pub mod work_laws;
