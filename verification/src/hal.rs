//! Hardware-abstraction bindings for the digital capability interfaces.

pub mod io_mqtt;
