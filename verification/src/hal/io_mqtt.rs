//! Digital I/O points bridged over a pub/sub topic: the network-bridged
//! binding variant of the digital capability interfaces.

use vstd::prelude::*;

use crate::{DigitalInput, DigitalOutput};

verus! {

/// A digital input whose state arrives over a pub/sub topic.
pub struct DigitalInputMqtt {
    /// Last state received on the topic.
    pub state: bool,
    /// Topic the state is subscribed on.
    pub topic: String,
}

impl DigitalInput for DigitalInputMqtt {
    open spec fn state_spec(&self) -> bool {
        self.state
    }

    fn get_state(&self) -> (r: bool) {
        self.state
    }
}

/// A digital output whose state is published over a pub/sub topic.
pub struct DigitalOutputMqtt {
    /// State last driven.
    pub state: bool,
    /// Topic the state is published on.
    pub topic: String,
}

impl DigitalOutput for DigitalOutputMqtt {
    open spec fn output_spec(&self) -> bool {
        self.state
    }

    open spec fn carrier_spec(&self) -> Seq<char> {
        self.topic@
    }

    fn set_output(&mut self, value: bool) {
        self.state = value;
    }

    fn set_true(&mut self) {
        self.state = true;
    }

    fn set_false(&mut self) {
        self.state = false;
    }
}

impl DigitalInput for DigitalOutputMqtt {
    open spec fn state_spec(&self) -> bool {
        self.state
    }

    fn get_state(&self) -> (r: bool) {
        self.state
    }
}

} // verus!
