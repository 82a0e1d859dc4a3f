use can_socket::{CanFdFrame, MessageType};

/* calc_dlc TESTS */

#[test]
fn calc_dlc_encoding() {
    // Test all critical boundary points for CAN FD DLC encoding
    let test_cases = vec![
        (0, 0), (1, 1), (8, 8),           // 0-8: DLC equals length
        (9, 9), (12, 9),                   // 9-12: DLC 9
        (13, 10), (16, 10),                // 13-16: DLC 10
        (17, 11), (20, 11),                // 17-20: DLC 11
        (21, 12), (24, 12),                // 21-24: DLC 12
        (25, 13), (32, 13),                // 25-32: DLC 13
        (33, 14), (48, 14),                // 33-48: DLC 14
        (49, 15), (64, 15),                // 49-64: DLC 15
        (65, 15), (100, 15),               // >64: DLC 15 (max)
    ];

    for (len, expected_dlc) in test_cases {
        assert_eq!(CanFdFrame::calc_dlc(len), expected_dlc, "Failed for length {}", len);
    }
}

/* len (DLC to data length) TESTS */

#[test]
fn len_decoding() {
    // Test all valid DLC values decode to correct data lengths
    let test_cases = vec![
        (0, 0), (1, 1), (2, 2), (3, 3), (4, 4), (5, 5), (6, 6), (7, 7), (8, 8),
        (12, 12), (16, 16), (20, 20), (24, 24), (32, 32), (48, 48), (64, 64),
    ];

    for (data_len, expected_len) in test_cases {
        let data = vec![0u8; data_len];
        let frame = CanFdFrame::new(0x123, MessageType::Standard, &data, false, false).unwrap();
        assert_eq!(frame.len(), expected_len, "Failed for data length {}", data_len);
    }
}

#[test]
fn len_calc_dlc_inverse() {
    // Verify len and calc_dlc are proper inverses, and non-standard lengths round up
    let test_cases = vec![
        (0, 0), (8, 8),                    // Standard 0-8
        (9, 12), (12, 12),                 // 9-12 rounds to 12
        (13, 16), (16, 16),                // 13-16 rounds to 16
        (20, 20), (24, 24),                // Standard boundaries
        (25, 32), (32, 32),                // 25-32 rounds to 32
        (40, 48), (48, 48),                // 33-48 rounds to 48
        (50, 64), (64, 64),                // 49-64 rounds to 64
    ];

    for (input_len, expected_frame_len) in test_cases {
        let data = vec![0u8; input_len];
        let frame = CanFdFrame::new(0x123, MessageType::Standard, &data, false, false).unwrap();
        assert_eq!(frame.len(), expected_frame_len, "Failed for input length {}", input_len);
    }
}
