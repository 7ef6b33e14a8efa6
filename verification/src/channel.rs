//! Radio channel numbers.

use vstd::prelude::*;
use crate::error::Error;

verus! {

/// Highest channel the radio can be tuned to.
pub const MAX_CHANNEL: u8 = 125;

/// A radio channel: a frequency slot numbered from 0 to 125.
#[derive(Debug, Clone, Copy, PartialEq, Eq, Structural)]
pub struct Channel(u8);

impl View for Channel {
    type V = int;

    /// The channel number.
    closed spec fn view(&self) -> int {
        self.0 as int
    }
}

impl Channel {
    #[verifier::type_invariant]
    closed spec fn in_band(self) -> bool {
        self.0 <= MAX_CHANNEL
    }

    /// Builds the channel numbered `channel`, or refuses a number above 125.
    pub fn from_number(channel: u8) -> (r: Result<Channel, Error>)
        ensures
            channel <= MAX_CHANNEL ==> r is Ok && r->Ok_0@ == channel,
            channel > MAX_CHANNEL ==> r == Err::<Channel, Error>(Error::InvalidArgument),
    {
        if channel < 126 {
            Ok(Channel(channel))
        } else {
            Err(Error::InvalidArgument)
        }
    }

    /// The channel's number.
    pub open spec fn spec_number(&self) -> u8 {
        self@ as u8
    }

    /// The channel's number.
    #[verifier::when_used_as_spec(spec_number)]
    pub fn number(&self) -> (n: u8)
        ensures
            n == self@,
            n == self.spec_number(),
            n <= MAX_CHANNEL,
    {
        proof {
            use_type_invariant(self);
        }
        self.0
    }
}

/// The numbers of a list of channels.
pub open spec fn channel_numbers(channels: Seq<Channel>) -> Seq<int> {
    channels.map_values(|c: Channel| c@)
}

} // verus!
