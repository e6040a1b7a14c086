use vstd::prelude::*;

verus! {

/// A target frame rate, in frames per second.
#[derive(Copy, Clone, Debug, PartialEq, Eq, Structural)]
pub struct Framerate(pub u32);

/// The frame rate used when none is chosen.
pub const DEFAULT_FRAMERATE: u32 = 30;

impl Framerate {
    pub fn new(framerate: u32) -> (r: Self)
        ensures
            r.0 == framerate,
    {
        Framerate(framerate)
    }

    pub fn default() -> (r: Self)
        ensures
            r.0 == DEFAULT_FRAMERATE,
    {
        Framerate(DEFAULT_FRAMERATE)
    }
}

impl From<u32> for Framerate {
    fn from(framerate: u32) -> (r: Self) {
        Framerate(framerate)
    }
}

impl vstd::std_specs::convert::FromSpecImpl<u32> for Framerate {
    open spec fn obeys_from_spec() -> bool {
        true
    }

    open spec fn from_spec(v: u32) -> Self {
        Framerate(v)
    }
}

impl From<Framerate> for u32 {
    fn from(framerate: Framerate) -> (r: u32) {
        framerate.0
    }
}

impl vstd::std_specs::convert::FromSpecImpl<Framerate> for u32 {
    open spec fn obeys_from_spec() -> bool {
        true
    }

    open spec fn from_spec(v: Framerate) -> u32 {
        v.0
    }
}

} // verus!
