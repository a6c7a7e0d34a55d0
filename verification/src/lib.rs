//! A verified translator between two representations of a CAN bus frame: the
//! binary, driver-facing frame used by a microcontroller's CAN peripheral, and
//! the ASCII-line, host-facing frame of the serial-line CAN convention.
//!
//! The library converts frames losslessly in both directions and renders the
//! protocol-facing frame into its bounded ASCII line form.  Every conversion
//! is total on well-formed inputs and signals failure through an absence
//! value; nothing here panics, allocates beyond the rendered line, or touches
//! the hardware itself.

pub mod codec;
pub mod driver;
pub mod protocol;
pub mod translate;

pub use codec::bxcan_to_vec;
pub use codec::encode_frame;

pub use translate::bxcan_to_canserial;
pub use translate::bxcan_to_canserial_id;
pub use translate::canserial_to_bxcan;
pub use translate::canserial_to_bxcan_id;

pub use protocol::ProtocolFrame;
pub use protocol::ProtocolFrameView;
pub use protocol::ProtocolId;

pub use driver::DriverFrame;
pub use driver::DriverFrameView;
pub use driver::DriverId;
