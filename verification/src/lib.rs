//! Master-side core of a cyclic industrial fieldbus: transport lease
//! registry, device discovery, the device-group state machine, and the
//! cyclic process-data exchange policy.

use vstd::prelude::*;

pub mod group;
pub mod hal;
pub mod master;
pub mod pdu;
pub mod registry;
pub mod shell;
pub mod tick;

verus! {

/// A digital input point: something whose boolean state can be read.
pub trait DigitalInput {
    /// The current state of the input, as seen by contracts.
    spec fn state_spec(&self) -> bool;

    fn get_state(&self) -> (r: bool)
        ensures
            r == self.state_spec(),
    ;
}

/// A digital output point: something whose boolean state can be driven.
pub trait DigitalOutput {
    /// The current driven state of the output, as seen by contracts.
    spec fn output_spec(&self) -> bool;

    /// The identity of the point behind the binding — for a
    /// network-bridged output, the topic it publishes on. Driving the
    /// state never changes where the value goes.
    spec fn carrier_spec(&self) -> Seq<char>;

    fn set_output(&mut self, value: bool)
        ensures
            final(self).output_spec() == value,
            final(self).carrier_spec() == old(self).carrier_spec(),
    ;

    fn set_true(&mut self)
        ensures
            final(self).output_spec(),
            final(self).carrier_spec() == old(self).carrier_spec(),
    ;

    fn set_false(&mut self)
        ensures
            !final(self).output_spec(),
            final(self).carrier_spec() == old(self).carrier_spec(),
    ;
}

} // verus!
