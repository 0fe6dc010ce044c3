//! The verified core of the Anland compositor backend: the adjustable
//! animation clock, the display daemon's event protocol and the virtual
//! input device.
pub mod time;
pub mod clock;
pub mod protocol;
pub mod context;
pub mod input;
