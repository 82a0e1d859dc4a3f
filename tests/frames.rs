use can_socket::{CanFdFrame, CanFrame, MessageType};

#[test]
fn can_frame_new_001() {
    let can_frame_1 =
        CanFrame::new(0x20, MessageType::Standard, &[0, 1, 2, 3, 4, 5, 6, 7]).unwrap();

    let can_frame_2 =
        CanFrame::new(0x20, MessageType::Standard, &[0, 1, 2, 3, 4, 5, 6, 7]).unwrap();

    assert_eq!(can_frame_1, can_frame_2);
}

#[test]
fn can_frame_new_002() {
    let can_frame_1 =
        CanFrame::new(0x20, MessageType::Extended, &[0, 1, 2, 3, 4, 5, 6, 7]).unwrap();

    let can_frame_2 =
        CanFrame::new(0x20, MessageType::Extended, &[0, 1, 2, 3, 4, 5, 6, 7]).unwrap();

    assert_eq!(can_frame_1, can_frame_2);
}

#[test]
#[should_panic]
fn can_frame_new_003() {
    let _can_frame_1 =
        CanFrame::new(0x20, MessageType::Standard, &[0, 1, 2, 3, 4, 5, 6, 7, 8]).unwrap();
}

#[test]
#[should_panic]
fn can_frame_new_004() {
    let _can_frame_1 =
        CanFrame::new(0x20, MessageType::Extended, &[0, 1, 2, 3, 4, 5, 6, 7, 8]).unwrap();
}

#[test]
fn can_frame_new_005() {
    let extended_id = 0x1E_C5_7E_D0;
    // Extended id bitwise and with standard mask
    let standard_id = 0x06_D0;

    let can_frame_1 = CanFrame::new(extended_id, MessageType::Standard, &[0, 1, 2]).unwrap();
    assert_eq!(can_frame_1.can_id(), standard_id);

    let can_frame_2 = CanFrame::new(extended_id, MessageType::Extended, &[0, 1, 2]).unwrap();
    assert_eq!(can_frame_2.can_id(), extended_id);
}

#[test]
fn can_frame_new_006() {
    let can_frame_1 = CanFrame::new(0x01_23, MessageType::Standard, &[0, 1, 2]).unwrap();
    assert!(can_frame_1.is_standard_frame());

    let can_frame_2 = CanFrame::new(0x1f_ff_00_ff, MessageType::Extended, &[0, 1, 2]).unwrap();
    assert!(can_frame_2.is_extended_frame());
}

/* CAN FD FRAME */

#[test]
fn can_fd_frame_new_001() {
    let can_frame_1 =
        CanFdFrame::new(0x20, MessageType::Standard, &(0..64u8).collect::<Vec<_>>(), false, false).unwrap();

    let can_frame_2 =
        CanFdFrame::new(0x20, MessageType::Standard, &(0..64u8).collect::<Vec<_>>(), false, false).unwrap();

    assert_eq!(can_frame_1, can_frame_2);
}

#[test]
fn can_fd_frame_new_002() {
    let can_frame_1 =
        CanFdFrame::new(0x20, MessageType::Extended, &(0..64u8).collect::<Vec<_>>(), false, false).unwrap();

    let can_frame_2 =
        CanFdFrame::new(0x20, MessageType::Extended, &(0..64u8).collect::<Vec<_>>(), false, false).unwrap();

    assert_eq!(can_frame_1, can_frame_2);
}

#[test]
#[should_panic]
fn can_fd_frame_new_003() {
    let _can_frame_1 =
        CanFdFrame::new(0x20, MessageType::Standard, &(0..65u8).collect::<Vec<_>>(), false, false).unwrap();
}

#[test]
#[should_panic]
fn can_fd_frame_new_004() {
    let _can_frame_1 =
        CanFdFrame::new(0x20, MessageType::Extended, &(0..65u8).collect::<Vec<_>>(), false, false).unwrap();
}

#[test]
fn can_fd_frame_new_005() {
    let extended_id = 0x1E_C5_7E_D0;
    // Extended id bitwise and with standard mask
    let standard_id = 0x06_D0;

    let can_frame_1 = CanFdFrame::new(
        extended_id,
        MessageType::Standard,
        &(0..64u8).collect::<Vec<_>>(),
        false,
        false,
    )
    .unwrap();
    assert_eq!(can_frame_1.can_id(), standard_id);

    let can_frame_2 = CanFdFrame::new(
        extended_id,
        MessageType::Extended,
        &(0..64u8).collect::<Vec<_>>(),
        false,
        false,
    )
    .unwrap();

    assert_eq!(can_frame_2.can_id(), extended_id);
}
