//! The serial-protocol-facing representation of a CAN frame.
//!
//! Structurally isomorphic to the driver frame, but constructed and validated
//! independently: it is the authoritative shape for ASCII rendering and is
//! responsible for its own length/payload consistency.  In a protocol data
//! frame the payload length always equals the data-length code; a protocol
//! remote frame carries no payload bytes at all.

use vstd::prelude::*;

verus! {

/// Protocol-side CAN identifier: an 11-bit standard value or a 29-bit
/// extended value.  The numeric value must never exceed the bit width of its
/// tag; construction from an out-of-range value fails rather than truncating.
#[derive(Clone, Copy, Debug, PartialEq, Eq, Structural)]
pub enum ProtocolId {
    Standard(u16),
    Extended(u32),
}

impl ProtocolId {
    /// The numeric value fits the bit width of its tag.
    pub open spec fn wf(self) -> bool {
        match self {
            ProtocolId::Standard(v) => v <= 0x7FF,
            ProtocolId::Extended(v) => v <= 0x1FFF_FFFF,
        }
    }

    /// Range-checked construction of a standard (11-bit) identifier.
    pub fn new_standard(raw: u16) -> (r: Option<ProtocolId>)
        ensures
            raw <= 0x7FF ==> r == Some(ProtocolId::Standard(raw)),
            raw > 0x7FF ==> r is None,
    {
        if raw <= 0x7FF {
            Some(ProtocolId::Standard(raw))
        } else {
            None
        }
    }

    /// Range-checked construction of an extended (29-bit) identifier.
    pub fn new_extended(raw: u32) -> (r: Option<ProtocolId>)
        ensures
            raw <= 0x1FFF_FFFF ==> r == Some(ProtocolId::Extended(raw)),
            raw > 0x1FFF_FFFF ==> r is None,
    {
        if raw <= 0x1FFF_FFFF {
            Some(ProtocolId::Extended(raw))
        } else {
            None
        }
    }
}

/// Mathematical model of a protocol frame: the payload is a byte sequence,
/// empty for remote frames.
#[verifier::ext_equal]
pub struct ProtocolFrameView {
    pub id: ProtocolId,
    pub remote: bool,
    pub dlc: u8,
    pub data: Seq<u8>,
}

impl ProtocolFrameView {
    /// Well-formedness of a protocol frame: the identifier is in range, the
    /// data-length code is at most 8, a remote frame carries no payload
    /// bytes, and a data frame carries exactly as many payload bytes as its
    /// data-length code announces.
    pub open spec fn wf(self) -> bool {
        &&& self.id.wf()
        &&& self.dlc <= 8
        &&& (if self.remote {
            self.data.len() == 0
        } else {
            self.data.len() == self.dlc
        })
    }
}

/// The serial-protocol-facing frame value.
#[derive(Debug)]
pub struct ProtocolFrame {
    pub id: ProtocolId,
    pub remote: bool,
    pub dlc: u8,
    pub data: Vec<u8>,
}

impl View for ProtocolFrame {
    type V = ProtocolFrameView;

    open spec fn view(&self) -> ProtocolFrameView {
        ProtocolFrameView {
            id: self.id,
            remote: self.remote,
            dlc: self.dlc,
            data: self.data@,
        }
    }
}

impl ProtocolFrame {
    /// Builds a data frame from an identifier and a payload slice.  Fails if
    /// and only if the payload holds more than 8 bytes; the data-length code
    /// is set to the payload length.  An empty payload yields a zero-length
    /// data frame, never a remote frame.
    pub fn new_frame(id: ProtocolId, data: &[u8]) -> (r: Option<ProtocolFrame>)
        requires
            id.wf(),
        ensures
            data@.len() <= 8 ==> (r matches Some(f) && f@ == (ProtocolFrameView {
                id,
                remote: false,
                dlc: data@.len() as u8,
                data: data@,
            }) && f@.wf()),
            data@.len() > 8 ==> r is None,
    {
        if data.len() <= 8 {
            Some(ProtocolFrame {
                id,
                remote: false,
                dlc: data.len() as u8,
                data: vstd::slice::slice_to_vec(data),
            })
        } else {
            None
        }
    }

    /// Builds a remote frame requesting `dlc` bytes.  Fails if and only if
    /// the requested length exceeds 8.
    pub fn new_remote(id: ProtocolId, dlc: usize) -> (r: Option<ProtocolFrame>)
        requires
            id.wf(),
        ensures
            dlc <= 8 ==> (r matches Some(f) && f@ == (ProtocolFrameView {
                id,
                remote: true,
                dlc: dlc as u8,
                data: Seq::empty(),
            }) && f@.wf()),
            dlc > 8 ==> r is None,
    {
        if dlc <= 8 {
            Some(ProtocolFrame { id, remote: true, dlc: dlc as u8, data: Vec::new() })
        } else {
            None
        }
    }

    /// The frame identifier.
    pub fn id(&self) -> (r: ProtocolId)
        ensures
            r == self.id,
    {
        self.id
    }

    /// Whether this is a remote frame.
    pub fn is_remote_frame(&self) -> (r: bool)
        ensures
            r == self.remote,
    {
        self.remote
    }

    /// The data-length code.
    pub fn dlc(&self) -> (r: usize)
        ensures
            r == self.dlc as usize,
    {
        self.dlc as usize
    }

    /// The payload bytes (empty for remote frames).
    pub fn data(&self) -> (r: &Vec<u8>)
        ensures
            r@ == self@.data,
    {
        &self.data
    }
}

} // verus!
