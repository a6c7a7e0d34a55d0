use slcan_bridge::bxcan_to_canserial;
use slcan_bridge::bxcan_to_canserial_id;
use slcan_bridge::canserial_to_bxcan;
use slcan_bridge::canserial_to_bxcan_id;
use slcan_bridge::DriverFrame;
use slcan_bridge::DriverId;
use slcan_bridge::ProtocolFrame;
use slcan_bridge::ProtocolId;

#[test]
fn test_canserial_to_bxcan() {
    let id = ProtocolId::new_standard(0x1).unwrap();
    let cframe = ProtocolFrame::new_frame(id, &[0x1, 0x2, 0x3, 0x4, 0x5, 0x6, 0x7, 0x8]).unwrap();
    let bframe = canserial_to_bxcan(&cframe).unwrap();
    assert_eq!(cframe.dlc(), bframe.dlc() as usize);
    for (i, b) in bframe.data().unwrap().iter().enumerate() {
        assert_eq!(cframe.data()[i], *b);
    }
}

#[test]
fn test_standard_id_range_rejection() {
    assert!(ProtocolId::new_standard(0x800).is_none());
    assert!(ProtocolId::new_standard(0xFFFF).is_none());
    assert_eq!(ProtocolId::new_standard(0x7FF), Some(ProtocolId::Standard(0x7FF)));
    assert!(DriverId::new_standard(0x800).is_none());
    assert_eq!(DriverId::new_standard(0x7FF), Some(DriverId::Standard(0x7FF)));
}

#[test]
fn test_extended_id_range_rejection() {
    assert!(ProtocolId::new_extended(0x2000_0000).is_none());
    assert!(ProtocolId::new_extended(u32::MAX).is_none());
    assert_eq!(
        ProtocolId::new_extended(0x1FFF_FFFF),
        Some(ProtocolId::Extended(0x1FFF_FFFF))
    );
    assert!(DriverId::new_extended(0x2000_0000).is_none());
    assert_eq!(DriverId::new_extended(0x1FFF_FFFF), Some(DriverId::Extended(0x1FFF_FFFF)));
}

#[test]
fn test_id_conversion_preserves_value() {
    let d = DriverId::new_standard(0x123).unwrap();
    assert_eq!(bxcan_to_canserial_id(&d), Some(ProtocolId::Standard(0x123)));
    let d = DriverId::new_extended(0x1ABCDE).unwrap();
    assert_eq!(bxcan_to_canserial_id(&d), Some(ProtocolId::Extended(0x1ABCDE)));
    let p = ProtocolId::new_standard(0x456).unwrap();
    assert_eq!(canserial_to_bxcan_id(&p), Some(DriverId::Standard(0x456)));
    let p = ProtocolId::new_extended(0x1FFF_FFFF).unwrap();
    assert_eq!(canserial_to_bxcan_id(&p), Some(DriverId::Extended(0x1FFF_FFFF)));
}

#[test]
fn test_out_of_range_id_conversion_fails() {
    // Values forced past the constructors are rejected by the conversion, not
    // truncated.
    assert!(bxcan_to_canserial_id(&DriverId::Standard(0x800)).is_none());
    assert!(bxcan_to_canserial_id(&DriverId::Extended(0x2000_0000)).is_none());
    assert!(canserial_to_bxcan_id(&ProtocolId::Standard(0x800)).is_none());
    assert!(canserial_to_bxcan_id(&ProtocolId::Extended(0x2000_0000)).is_none());
}

#[test]
fn test_standard_data_frame_round_trip() {
    let id = ProtocolId::new_standard(0x001).unwrap();
    let payload = [0x1u8, 0x2, 0x3, 0x4, 0x5, 0x6, 0x7, 0x8];
    let cframe = ProtocolFrame::new_frame(id, &payload).unwrap();
    let bframe = canserial_to_bxcan(&cframe).unwrap();
    assert_eq!(bframe.id(), DriverId::Standard(0x001));
    assert!(!bframe.is_remote_frame());
    assert_eq!(bframe.dlc(), 8);
    let back = bxcan_to_canserial(&bframe).unwrap();
    assert_eq!(back.id(), ProtocolId::Standard(0x001));
    assert!(!back.is_remote_frame());
    assert_eq!(back.dlc(), 8);
    assert_eq!(back.data().as_slice(), &payload[..]);
}

#[test]
fn test_extended_remote_frame_round_trip() {
    let id = ProtocolId::new_extended(0x1ABCDE).unwrap();
    let cframe = ProtocolFrame::new_remote(id, 4).unwrap();
    assert!(cframe.data().is_empty());
    let bframe = canserial_to_bxcan(&cframe).unwrap();
    assert_eq!(bframe.id(), DriverId::Extended(0x1ABCDE));
    assert!(bframe.is_remote_frame());
    assert_eq!(bframe.dlc(), 4);
    assert!(bframe.data().is_none());
    let back = bxcan_to_canserial(&bframe).unwrap();
    assert_eq!(back.id(), ProtocolId::Extended(0x1ABCDE));
    assert!(back.is_remote_frame());
    assert_eq!(back.dlc(), 4);
    assert!(back.data().is_empty());
}

#[test]
fn test_empty_data_frame_driver_to_protocol() {
    // A driver-side data frame with no payload object converts to an empty
    // data frame, never to a remote frame.
    let frame = DriverFrame { id: DriverId::Standard(0x42), remote: false, dlc: 0, data: None };
    let converted = bxcan_to_canserial(&frame).unwrap();
    assert!(!converted.is_remote_frame());
    assert_eq!(converted.dlc(), 0);
    assert!(converted.data().is_empty());
    assert_eq!(converted.id(), ProtocolId::Standard(0x42));
}

#[test]
fn test_empty_data_frame_protocol_to_driver() {
    // The reverse direction: a protocol data frame with an empty payload
    // packs into the driver's fixed buffer as a zero-length data frame.
    let id = ProtocolId::new_standard(0x42).unwrap();
    let cframe = ProtocolFrame::new_frame(id, &[]).unwrap();
    assert!(!cframe.is_remote_frame());
    let bframe = canserial_to_bxcan(&cframe).unwrap();
    assert!(!bframe.is_remote_frame());
    assert_eq!(bframe.dlc(), 0);
    let data = bframe.data().unwrap();
    assert!(data.is_empty());
}

#[test]
fn test_payload_capacity_rejection() {
    let id = ProtocolId::new_standard(0x1).unwrap();
    let nine = [0u8; 9];
    assert!(ProtocolFrame::new_frame(id, &nine).is_none());
    assert!(ProtocolFrame::new_remote(id, 9).is_none());
    let did = DriverId::new_standard(0x1).unwrap();
    assert!(DriverFrame::new_data(did, &nine).is_none());
    let eight = [0u8; 8];
    assert!(ProtocolFrame::new_frame(id, &eight).is_some());
    assert!(ProtocolFrame::new_remote(id, 8).is_some());
    assert!(DriverFrame::new_data(did, &eight).is_some());
}

#[test]
fn test_out_of_range_frame_conversion_fails() {
    let frame = DriverFrame { id: DriverId::Standard(0x800), remote: false, dlc: 0, data: None };
    assert!(bxcan_to_canserial(&frame).is_none());
    let frame = DriverFrame { id: DriverId::Extended(0x2000_0000), remote: true, dlc: 1, data: None };
    assert!(bxcan_to_canserial(&frame).is_none());
}
