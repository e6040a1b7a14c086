use vstd::prelude::*;

verus! {

/// A width and a height in pixels, as the capture platform reports them.
#[derive(Copy, Clone, Debug, PartialEq, Eq, Structural)]
pub struct Size {
    pub width: i32,
    pub height: i32,
}

/// The output resolution policy of a recording.
#[derive(Copy, Clone, Debug, PartialEq, Eq, Structural)]
pub enum Resolution {
    Native,
    _720p,
    _1080p,
    _1440p,
    _2160p,
    _4320p,
}

/// The fixed size of a preset, or `None` for the capture source's own size.
pub open spec fn preset_size(r: Resolution) -> Option<Size> {
    match r {
        Resolution::Native => None,
        Resolution::_720p => Some(Size { width: 1280, height: 720 }),
        Resolution::_1080p => Some(Size { width: 1920, height: 1080 }),
        Resolution::_1440p => Some(Size { width: 2560, height: 1440 }),
        Resolution::_2160p => Some(Size { width: 3840, height: 2160 }),
        Resolution::_4320p => Some(Size { width: 7680, height: 4320 }),
    }
}

impl Resolution {
    pub fn get_size(&self) -> (r: Option<Size>)
        ensures
            r == preset_size(*self),
    {
        match self {
            Resolution::Native => None,
            Resolution::_720p => Some(Size { width: 1280, height: 720 }),
            Resolution::_1080p => Some(Size { width: 1920, height: 1080 }),
            Resolution::_1440p => Some(Size { width: 2560, height: 1440 }),
            Resolution::_2160p => Some(Size { width: 3840, height: 2160 }),
            Resolution::_4320p => Some(Size { width: 7680, height: 4320 }),
        }
    }
}

/// `n` rounded up to the next even number.
pub open spec fn round_up_even(n: int) -> int {
    if n % 2 == 0 {
        n
    } else {
        n + 1
    }
}

/// The capture size with each dimension rounded up to an even number, as the
/// video codec needs.
pub fn ensure_even(size: Size) -> (r: Size)
    requires
        size.width < i32::MAX,
        size.height < i32::MAX,
    ensures
        r.width == round_up_even(size.width as int),
        r.height == round_up_even(size.height as int),
{
    Size {
        width: if size.width % 2 == 0 { size.width } else { size.width + 1 },
        height: if size.height % 2 == 0 { size.height } else { size.height + 1 },
    }
}

/// The size of the output surface: the preset's size, or else the native
/// size rounded up to even dimensions.
pub open spec fn output_size_of(r: Resolution, native: Size) -> Size {
    match preset_size(r) {
        Some(s) => s,
        None => Size {
            width: round_up_even(native.width as int) as i32,
            height: round_up_even(native.height as int) as i32,
        },
    }
}

/// Resolves the output size for a capture source of size `native`.
pub fn output_size(r: Resolution, native: Size) -> (s: Size)
    requires
        native.width < i32::MAX,
        native.height < i32::MAX,
    ensures
        s == output_size_of(r, native),
{
    match r.get_size() {
        Some(s) => s,
        None => ensure_even(native),
    }
}

} // verus!
