//! The frame translator: pure, bidirectional, lossless mapping between the
//! driver-facing and the protocol-facing frame representations.
//!
//! Conversion preserves identifier kind and value, frame kind (data or
//! remote), data-length code, and every payload byte.  It is best-effort
//! partial rather than total: a value that conforms to one representation's
//! invariants but is rejected by the other's constructor makes the conversion
//! fail with an absence value, never truncate silently.

use vstd::prelude::*;

use crate::driver::DriverFrame;
use crate::driver::DriverFrameView;
use crate::driver::DriverId;
use crate::protocol::ProtocolFrame;
use crate::protocol::ProtocolFrameView;
use crate::protocol::ProtocolId;

verus! {

/// A driver-side and a protocol-side identifier denote the same CAN
/// identifier: the same width tag and the same numeric value.
pub open spec fn ids_correspond(d: DriverId, p: ProtocolId) -> bool {
    match (d, p) {
        (DriverId::Standard(a), ProtocolId::Standard(b)) => a == b,
        (DriverId::Extended(a), ProtocolId::Extended(b)) => a == b,
        _ => false,
    }
}

/// Driver-to-protocol identifier conversion: the value and tag carry over
/// unchanged; the conversion fails exactly when the protocol-side constructor
/// would reject the value as out of range.
pub open spec fn spec_to_protocol_id(id: DriverId) -> Option<ProtocolId> {
    match id {
        DriverId::Standard(v) => if v <= 0x7FF {
            Some(ProtocolId::Standard(v))
        } else {
            None
        },
        DriverId::Extended(v) => if v <= 0x1FFF_FFFF {
            Some(ProtocolId::Extended(v))
        } else {
            None
        },
    }
}

/// Protocol-to-driver identifier conversion, symmetric to
/// [`spec_to_protocol_id`].
pub open spec fn spec_to_driver_id(id: ProtocolId) -> Option<DriverId> {
    match id {
        ProtocolId::Standard(v) => if v <= 0x7FF {
            Some(DriverId::Standard(v))
        } else {
            None
        },
        ProtocolId::Extended(v) => if v <= 0x1FFF_FFFF {
            Some(DriverId::Extended(v))
        } else {
            None
        },
    }
}

/// Driver-to-protocol frame conversion.  A remote frame carries over its
/// identifier and length; a data frame carries over its payload, with the
/// protocol length set to the payload length; a data frame without a payload
/// object becomes a zero-length data frame, never a remote frame.
pub open spec fn spec_to_protocol(f: DriverFrameView) -> Option<ProtocolFrameView> {
    match spec_to_protocol_id(f.id) {
        None => None,
        Some(pid) => if f.remote {
            if f.dlc <= 8 {
                Some(ProtocolFrameView { id: pid, remote: true, dlc: f.dlc, data: Seq::empty() })
            } else {
                None
            }
        } else {
            match f.data {
                Some(d) => if d.len() <= 8 {
                    Some(ProtocolFrameView {
                        id: pid,
                        remote: false,
                        dlc: d.len() as u8,
                        data: d,
                    })
                } else {
                    None
                },
                None => Some(ProtocolFrameView {
                    id: pid,
                    remote: false,
                    dlc: 0,
                    data: Seq::empty(),
                }),
            }
        },
    }
}

/// Protocol-to-driver frame conversion.  A remote frame carries over its
/// identifier and length; a data frame is packed into the driver's fixed
/// 8-byte payload buffer and fails if it does not fit.
pub open spec fn spec_to_driver(f: ProtocolFrameView) -> Option<DriverFrameView> {
    match spec_to_driver_id(f.id) {
        None => None,
        Some(did) => if f.remote {
            if f.dlc <= 8 {
                Some(DriverFrameView { id: did, remote: true, dlc: f.dlc, data: None })
            } else {
                None
            }
        } else {
            if f.data.len() <= 8 {
                Some(DriverFrameView {
                    id: did,
                    remote: false,
                    dlc: f.data.len() as u8,
                    data: Some(f.data),
                })
            } else {
                None
            }
        },
    }
}

/// Protocol-to-driver-and-back composition, the subject of the round-trip
/// laws below.
pub open spec fn spec_round_trip(f: ProtocolFrameView) -> Option<ProtocolFrameView> {
    match spec_to_driver(f) {
        Some(d) => spec_to_protocol(d),
        None => None,
    }
}

/// Converts a driver-side identifier to the protocol representation.  The
/// numeric value and the tag carry over without modification; the conversion
/// fails exactly when the value is out of range for its own tag, which is
/// defensive rather than expected.
pub fn bxcan_to_canserial_id(id: &DriverId) -> (r: Option<ProtocolId>)
    ensures
        r == spec_to_protocol_id(*id),
        r is Some <==> id.wf(),
        r matches Some(p) ==> p.wf() && ids_correspond(*id, p),
{
    match id {
        DriverId::Standard(v) => ProtocolId::new_standard(*v),
        DriverId::Extended(v) => ProtocolId::new_extended(*v),
    }
}

/// Converts a protocol-side identifier to the driver representation,
/// symmetric to [`bxcan_to_canserial_id`].
pub fn canserial_to_bxcan_id(id: &ProtocolId) -> (r: Option<DriverId>)
    ensures
        r == spec_to_driver_id(*id),
        r is Some <==> id.wf(),
        r matches Some(d) ==> d.wf() && ids_correspond(d, *id),
{
    match id {
        ProtocolId::Standard(v) => DriverId::new_standard(*v),
        ProtocolId::Extended(v) => DriverId::new_extended(*v),
    }
}

/// Converts a driver frame to the protocol representation.  Succeeds exactly
/// when the identifier is in range, a remote frame's length code is at most
/// 8, and a payload, when present, holds at most 8 bytes; a data frame
/// without a payload object converts to an empty data frame.
pub fn bxcan_to_canserial(bcanframe: &DriverFrame) -> (r: Option<ProtocolFrame>)
    ensures
        r is Some <==> spec_to_protocol(bcanframe@) is Some,
        r matches Some(p) ==> spec_to_protocol(bcanframe@) == Some(p@) && p@.wf(),
        r is Some <==> (bcanframe@.id.wf() && (if bcanframe@.remote {
            bcanframe@.dlc <= 8
        } else {
            bcanframe@.data matches Some(d) ==> d.len() <= 8
        })),
{
    match bcanframe.is_remote_frame() {
        true => ProtocolFrame::new_remote(
            match bxcan_to_canserial_id(&bcanframe.id()) {
                Some(pid) => pid,
                None => {
                    return None;
                },
            },
            bcanframe.dlc() as usize,
        ),
        false => match bcanframe.data() {
            Some(d) => ProtocolFrame::new_frame(
                match bxcan_to_canserial_id(&bcanframe.id()) {
                    Some(pid) => pid,
                    None => {
                        return None;
                    },
                },
                d.as_slice(),
            ),
            None => {
                let empty: Vec<u8> = Vec::new();
                ProtocolFrame::new_frame(
                    match bxcan_to_canserial_id(&bcanframe.id()) {
                        Some(pid) => pid,
                        None => {
                            return None;
                        },
                    },
                    empty.as_slice(),
                )
            },
        },
    }
}

/// Converts a protocol frame to the driver representation.  On a well-formed
/// protocol frame this always succeeds: the identifier is already in range
/// and the payload already fits the driver's fixed buffer, so the remaining
/// failure paths are defensive.
pub fn canserial_to_bxcan(slcan: &ProtocolFrame) -> (r: Option<DriverFrame>)
    requires
        slcan@.wf(),
    ensures
        r matches Some(b) && spec_to_driver(slcan@) == Some(b@),
        r matches Some(b) ==> b@.wf() && ids_correspond(b@.id, slcan@.id) && b@.remote
            == slcan@.remote && b@.dlc == slcan@.dlc && (if slcan@.remote {
            b@.data is None
        } else {
            b@.data == Some(slcan@.data)
        }),
{
    match slcan.is_remote_frame() {
        true => Some(
            DriverFrame::new_remote(
                match canserial_to_bxcan_id(&slcan.id()) {
                    Some(did) => did,
                    None => {
                        return None;
                    },
                },
                slcan.dlc() as u8,
            ),
        ),
        false => DriverFrame::new_data(
            match canserial_to_bxcan_id(&slcan.id()) {
                Some(did) => did,
                None => {
                    return None;
                },
            },
            slcan.data().as_slice(),
        ),
    }
}

/// Law: a well-formed protocol data frame survives the trip to the driver
/// representation and back unchanged — the identifier, the kind, the length,
/// and the payload byte at every index are all preserved.
pub proof fn lemma_round_trip_data(f: ProtocolFrameView)
    requires
        f.wf(),
        !f.remote,
    ensures
        spec_to_driver(f) is Some,
        spec_round_trip(f) == Some(f),
{
    let d = spec_to_driver(f)->0;
    let p = spec_to_protocol(d)->0;
    assert(p =~= f);
}

/// Law: a well-formed protocol remote frame survives the trip to the driver
/// representation and back unchanged — identifier and length are preserved,
/// and the payload is absent on both sides.
pub proof fn lemma_round_trip_remote(f: ProtocolFrameView)
    requires
        f.wf(),
        f.remote,
    ensures
        spec_to_driver(f) matches Some(d) && d.data is None,
        spec_round_trip(f) == Some(f),
{
    let d = spec_to_driver(f)->0;
    let p = spec_to_protocol(d)->0;
    assert(p =~= f);
}

/// Law: a driver-side data frame that carries no payload object converts to
/// a protocol data frame with an empty payload — it is preserved as a
/// zero-length data frame, never reinterpreted as a remote frame.
pub proof fn lemma_empty_data_frame_preserved(f: DriverFrameView)
    requires
        f.id.wf(),
        !f.remote,
        f.dlc == 0,
        f.data is None,
    ensures
        spec_to_protocol(f) matches Some(p) && !p.remote && p.dlc == 0 && p.data.len() == 0
            && ids_correspond(f.id, p.id),
{
}

} // verus!
