use vstd::prelude::*;

use crate::bitrate::{effective_bits, Bitrate};
use crate::framerate::Framerate;
use crate::resolution::{output_size, output_size_of, Resolution, Size};

verus! {

/// The configuration of a recording, fixed when the recorder is built.
pub struct RecorderSettings {
    /// A part of the title of the window to record.
    pub window_title: String,
    pub output_resolution: Resolution,
    pub framerate: Framerate,
    /// Zero selects the default of the output resolution.
    pub bitrate: Bitrate,
    pub capture_cursor: bool,
}

/// What the encoder is set up with.
#[derive(Copy, Clone, Debug, PartialEq, Eq, Structural)]
pub struct EncoderConfig {
    /// The size of the composed output surface and of the video.
    pub size: Size,
    /// Frames per second.
    pub framerate: u32,
    /// Bits per second.
    pub bitrate: u32,
}

impl RecorderSettings {
    pub fn new(
        window_title: String,
        output_resolution: Resolution,
        framerate: Framerate,
        bitrate: Bitrate,
        capture_cursor: bool,
    ) -> (r: Self)
        ensures
            r.window_title@ == window_title@,
            r.output_resolution == output_resolution,
            r.framerate == framerate,
            r.bitrate == bitrate,
            r.capture_cursor == capture_cursor,
    {
        RecorderSettings { window_title, output_resolution, framerate, bitrate, capture_cursor }
    }

    /// The encoder's setup for a capture source of size `native`: the preset
    /// size or the native size rounded up to even dimensions, the frame
    /// rate, and the explicit bit rate or the resolution's default.
    pub fn encoder_config(&self, native: Size) -> (r: EncoderConfig)
        requires
            native.width < i32::MAX,
            native.height < i32::MAX,
        ensures
            r.size == output_size_of(self.output_resolution, native),
            r.framerate == self.framerate.0,
            r.bitrate == effective_bits(self.bitrate, self.output_resolution),
    {
        EncoderConfig {
            size: output_size(self.output_resolution, native),
            framerate: self.framerate.0,
            bitrate: self.bitrate.resolve(self.output_resolution).0,
        }
    }
}

} // verus!
