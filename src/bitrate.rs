use vstd::prelude::*;

use crate::resolution::Resolution;

verus! {

/// A target bit rate in bits per second; zero asks for the default of the
/// output resolution.
#[derive(Copy, Clone, Debug, PartialEq, Eq, Structural)]
pub struct Bitrate(pub u32);

/// The default bit rate of each resolution, in Mbit/s.
pub open spec fn default_mbit(r: Resolution) -> u32 {
    match r {
        Resolution::Native => 15,
        Resolution::_720p => 5,
        Resolution::_1080p => 8,
        Resolution::_1440p => 16,
        Resolution::_2160p => 45,
        Resolution::_4320p => 175,
    }
}

/// The bit rate that a recording uses: the explicit one, or the default of
/// the resolution when it is automatic.
pub open spec fn effective_bits(b: Bitrate, r: Resolution) -> u32 {
    if b.0 == 0 {
        (default_mbit(r) * 1_000_000) as u32
    } else {
        b.0
    }
}

impl Bitrate {
    pub fn auto() -> (r: Self)
        ensures
            r.0 == 0,
    {
        Bitrate(0)
    }

    pub fn kbit(kbit: u32) -> (r: Self)
        requires
            kbit as int * 1000 <= u32::MAX,
        ensures
            r.0 == kbit as int * 1000,
    {
        Bitrate(kbit * 1000)
    }

    pub fn mbit(mbit: u32) -> (r: Self)
        requires
            mbit as int * 1_000_000 <= u32::MAX,
        ensures
            r.0 == mbit as int * 1_000_000,
    {
        Bitrate(mbit * 1_000_000)
    }

    pub fn gbit(gbit: u32) -> (r: Self)
        requires
            gbit as int * 1_000_000_000 <= u32::MAX,
        ensures
            r.0 == gbit as int * 1_000_000_000,
    {
        Bitrate(gbit * 1_000_000_000)
    }

    pub fn get_default_bitrate(resolution: Resolution) -> (r: Self)
        ensures
            r.0 == default_mbit(resolution) as int * 1_000_000,
    {
        let mbit: u32 = match resolution {
            Resolution::Native => 15,
            Resolution::_720p => 5,
            Resolution::_1080p => 8,
            Resolution::_1440p => 16,
            Resolution::_2160p => 45,
            Resolution::_4320p => 175,
        };
        Self::mbit(mbit)
    }

    /// Whether the bit rate is left to the default of the resolution.
    pub fn is_auto(&self) -> (r: bool)
        ensures
            r == (self.0 == 0),
    {
        self.0 == 0
    }

    /// The bit rate to record at with this setting and `resolution`.
    pub fn resolve(self, resolution: Resolution) -> (r: Self)
        ensures
            r.0 == effective_bits(self, resolution),
            self.0 != 0 ==> r == self,
            r.0 > 0,
    {
        if self.is_auto() {
            Self::get_default_bitrate(resolution)
        } else {
            self
        }
    }
}

impl From<u32> for Bitrate {
    fn from(bitrate: u32) -> (r: Self) {
        Bitrate(bitrate)
    }
}

impl vstd::std_specs::convert::FromSpecImpl<u32> for Bitrate {
    open spec fn obeys_from_spec() -> bool {
        true
    }

    open spec fn from_spec(v: u32) -> Self {
        Bitrate(v)
    }
}

impl From<Bitrate> for u32 {
    fn from(bitrate: Bitrate) -> (r: u32) {
        bitrate.0
    }
}

impl vstd::std_specs::convert::FromSpecImpl<Bitrate> for u32 {
    open spec fn obeys_from_spec() -> bool {
        true
    }

    open spec fn from_spec(v: Bitrate) -> u32 {
        v.0
    }
}

} // verus!
