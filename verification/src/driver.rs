//! The peripheral-driver-facing representation of a CAN frame.
//!
//! A driver frame carries an identifier, a frame-kind flag (data or remote),
//! a data-length code in `0..=8`, and — for data frames only — an optional
//! payload of at most 8 bytes.  Remote frames carry no payload but still
//! report the requested length through the data-length code.

use vstd::prelude::*;

verus! {

/// Driver-side CAN identifier: an 11-bit standard value or a 29-bit extended
/// value.  The numeric value must never exceed the bit width of its tag;
/// construction from an out-of-range value fails rather than truncating.
#[derive(Clone, Copy, Debug, PartialEq, Eq, Structural)]
pub enum DriverId {
    Standard(u16),
    Extended(u32),
}

impl DriverId {
    /// The numeric value fits the bit width of its tag.
    pub open spec fn wf(self) -> bool {
        match self {
            DriverId::Standard(v) => v <= 0x7FF,
            DriverId::Extended(v) => v <= 0x1FFF_FFFF,
        }
    }

    /// Range-checked construction of a standard (11-bit) identifier.
    pub fn new_standard(raw: u16) -> (r: Option<DriverId>)
        ensures
            raw <= 0x7FF ==> r == Some(DriverId::Standard(raw)),
            raw > 0x7FF ==> r is None,
    {
        if raw <= 0x7FF {
            Some(DriverId::Standard(raw))
        } else {
            None
        }
    }

    /// Range-checked construction of an extended (29-bit) identifier.
    pub fn new_extended(raw: u32) -> (r: Option<DriverId>)
        ensures
            raw <= 0x1FFF_FFFF ==> r == Some(DriverId::Extended(raw)),
            raw > 0x1FFF_FFFF ==> r is None,
    {
        if raw <= 0x1FFF_FFFF {
            Some(DriverId::Extended(raw))
        } else {
            None
        }
    }
}

/// Mathematical model of a driver frame: the payload, when present, is a
/// sequence of bytes.
#[verifier::ext_equal]
pub struct DriverFrameView {
    pub id: DriverId,
    pub remote: bool,
    pub dlc: u8,
    pub data: Option<Seq<u8>>,
}

impl DriverFrameView {
    /// Well-formedness of a driver frame: the identifier is in range, the
    /// data-length code is at most 8, remote frames carry no payload object,
    /// and a payload, when present, holds at most 8 bytes.  A data frame may
    /// lack a payload object altogether: that is the legitimate
    /// "empty data frame" shape, not an error.
    pub open spec fn wf(self) -> bool {
        &&& self.id.wf()
        &&& self.dlc <= 8
        &&& (self.remote ==> self.data is None)
        &&& (self.data matches Some(d) ==> d.len() <= 8)
    }
}

/// The peripheral-driver-facing frame value.
#[derive(Debug)]
pub struct DriverFrame {
    pub id: DriverId,
    pub remote: bool,
    pub dlc: u8,
    pub data: Option<Vec<u8>>,
}

impl View for DriverFrame {
    type V = DriverFrameView;

    open spec fn view(&self) -> DriverFrameView {
        DriverFrameView {
            id: self.id,
            remote: self.remote,
            dlc: self.dlc,
            data: match self.data {
                Some(d) => Some(d@),
                None => None,
            },
        }
    }
}

impl DriverFrame {
    /// Builds a data frame from an identifier and a payload slice.  Fails if
    /// and only if the payload cannot be packed into the fixed 8-byte payload
    /// buffer of the driver frame.  The data-length code always equals the
    /// payload length.
    pub fn new_data(id: DriverId, data: &[u8]) -> (r: Option<DriverFrame>)
        requires
            id.wf(),
        ensures
            data@.len() <= 8 ==> (r matches Some(f) && f@ == (DriverFrameView {
                id,
                remote: false,
                dlc: data@.len() as u8,
                data: Some(data@),
            }) && f@.wf()),
            data@.len() > 8 ==> r is None,
    {
        if data.len() <= 8 {
            Some(DriverFrame {
                id,
                remote: false,
                dlc: data.len() as u8,
                data: Some(vstd::slice::slice_to_vec(data)),
            })
        } else {
            None
        }
    }

    /// Builds a remote frame with the requested data-length code.  The
    /// driver's own constructor treats a length code above 8 as a programming
    /// error, so callers must rule it out.
    pub fn new_remote(id: DriverId, dlc: u8) -> (r: DriverFrame)
        requires
            id.wf(),
            dlc <= 8,
        ensures
            r@ == (DriverFrameView { id, remote: true, dlc, data: None }),
            r@.wf(),
    {
        DriverFrame { id, remote: true, dlc, data: None }
    }

    /// The frame identifier.
    pub fn id(&self) -> (r: DriverId)
        ensures
            r == self.id,
    {
        self.id
    }

    /// Whether this is a remote frame.
    pub fn is_remote_frame(&self) -> (r: bool)
        ensures
            r == self.remote,
    {
        self.remote
    }

    /// The data-length code.
    pub fn dlc(&self) -> (r: u8)
        ensures
            r == self.dlc,
    {
        self.dlc
    }

    /// The payload bytes, when a payload object is present.
    pub fn data(&self) -> (r: Option<&Vec<u8>>)
        ensures
            r is Some <==> self.data is Some,
            r matches Some(d) ==> self@.data == Some(d@),
    {
        match &self.data {
            Some(d) => Some(d),
            None => None,
        }
    }
}

} // verus!
