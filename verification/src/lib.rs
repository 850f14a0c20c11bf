//! Core of a USB HID foot-pedal device: the wire-exact report codec, the
//! HID report descriptor it must agree with, and the periodic sampling
//! loop that pushes reports through a non-blocking USB transport.

pub mod codec;
pub mod descriptor;
pub mod sampling;
