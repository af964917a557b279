//! The brain display window: touch input on the emulated screen and the
//! preparation of received frames for drawing.

pub mod touch;
pub mod frame;
