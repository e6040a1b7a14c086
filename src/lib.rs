//! A window screen-recording pipeline: the rules that pick the encoder's
//! settings, the frame source that turns pushed capture frames into pulled
//! ones, the clock and layout of composed samples, and the session
//! controller that sequences start and shutdown.

pub mod bitrate;
pub mod framerate;
pub mod resolution;
pub mod frame_source;
pub mod composer;
pub mod session;
pub mod settings;
pub mod window;
pub mod output_name;
