//! J1939 data model on top of CAN frames: the fields of frame identifiers,
//! the NAME used for address claiming, the value ranges of fixed-width
//! signals, and acknowledgement messages.

pub mod identifier;
pub mod message;
pub mod name;
pub mod signal;
