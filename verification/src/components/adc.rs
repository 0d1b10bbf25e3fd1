//! Components for the converter's multiplexer and its users.

use vstd::prelude::*;
use crate::capsules::virtual_adc::{AdcUser, MuxAdc};

verus! {

/// Makes the multiplexer of a converter.
pub struct AdcMuxComponent {}

impl AdcMuxComponent {
    pub fn new() -> (component: AdcMuxComponent) {
        AdcMuxComponent {  }
    }

    /// A multiplexer with no users and the converter free.
    pub fn finalize(self) -> (mux: MuxAdc)
        ensures
            mux@.devices.len() == 0,
            mux@.inflight is None,
            mux@.wf(),
    {
        MuxAdc::new()
    }
}

/// Makes a user of the converter, bound to a channel.
pub struct AdcComponent {
    pub channel: usize,
}

impl AdcComponent {
    pub fn new(channel: usize) -> (component: AdcComponent)
        ensures
            component.channel == channel,
    {
        AdcComponent { channel }
    }

    /// Registers a user for the channel with `mux`, with `client` to
    /// deliver its samples to, and returns its index. No other user of the
    /// multiplexer may be bound to the channel.
    pub fn finalize(self, mux: &mut MuxAdc, client: usize) -> (index: usize)
        requires
            old(mux)@.wf(),
            forall|i: int|
                0 <= i < old(mux)@.devices.len() ==> (#[trigger] old(mux)@.devices[i]).channel
                    != self.channel,
        ensures
            index == old(mux)@.devices.len(),
            final(mux)@.devices == old(mux)@.devices.push(
                AdcUser { channel: self.channel, operation: None, client: Some(client) },
            ),
            final(mux)@.inflight == old(mux)@.inflight,
            final(mux)@.wf(),
    {
        let index = AdcUser::new(self.channel).add_to_mux(mux);
        mux.set_client(index, client);
        proof {
            assert(final(mux)@.devices =~= old(mux)@.devices.push(
                AdcUser { channel: self.channel, operation: None, client: Some(client) },
            ));
        }
        index
    }
}

} // verus!
