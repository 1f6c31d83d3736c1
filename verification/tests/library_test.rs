use russh_sftp::buf::{read_u64_field, TryBuf};
use russh_sftp::client::error::{is_serv_u_error, Error};
use russh_sftp::client::fs::file::{
    max_read_len, max_write_len, read_outcome, read_request_len, resolve_seek,
    should_use_conservative_limits, write_request_len, SeekError, SeekTarget,
};
use russh_sftp::client::metrics::{ConnectionState, Metrics};
use russh_sftp::client::rawsession::{
    backoff_delay_ms, expect_attrs, expect_data, expect_extended_data, expect_handle,
    expect_name, expect_status, expect_version, is_retryable, shutdown_step,
    unknown_recipient_error, validate_reply, Limits, RetryDecision, SessionState, ShutdownStep,
};
use russh_sftp::client::session::{
    dir_step, extensions_of, first_filename, prepend_entries, try_exists_outcome, wants_limits,
    DirStep,
};
use russh_sftp::error::{Error as CoreError, IoFailureKind};
use russh_sftp::extensions::LimitsExtension;
use russh_sftp::protocol::{
    Attrs, Data, ExtendedReply, File, FileAttributes, Handle, Name, Packet, Status, StatusCode,
    Version,
};
use russh_sftp::text::{decimal_string, str_contains, str_equals};
use russh_sftp::utils::{
    check_packet_length, data_timeout_error, length_timeout_error, step_after, unix,
    unix_checked, LoopStep, MAX_PACKET_SIZE,
    MAX_UTC_TIMESTAMP, MIN_UTC_TIMESTAMP,
};

fn status(code: StatusCode, msg: &str) -> Status {
    Status {
        id: 7,
        status_code: code,
        error_message: msg.to_string(),
        language_tag: "en".to_string(),
    }
}

fn field(payload: &[u8]) -> Vec<u8> {
    let mut v = (payload.len() as u32).to_be_bytes().to_vec();
    v.extend_from_slice(payload);
    v
}

#[test]
fn decimal_rendering() {
    assert_eq!(decimal_string(0), "0");
    assert_eq!(decimal_string(7), "7");
    assert_eq!(decimal_string(1048576), "1048576");
    assert_eq!(decimal_string(u64::MAX), "18446744073709551615");
}

#[test]
fn substring_and_equality() {
    assert!(str_contains("abc recv none message xyz", "recv none message"));
    assert!(str_contains("abc", ""));
    assert!(!str_contains("ab", "abc"));
    assert!(!str_contains("connection rest", "connection reset"));
    assert!(str_equals("io", "io"));
    assert!(!str_equals("io", "i"));
}

#[test]
fn serv_u_patterns_are_detected() {
    assert!(is_serv_u_error("Client has exceeded the server's internal buffers"));
    assert!(is_serv_u_error("Error: TOO MANY SIMULTANEOUS CLIENT REQUESTS now"));
    assert!(is_serv_u_error("Non-RFC compliant SSH protocol version exchange"));
    assert!(is_serv_u_error("Internal Buffer Limit exceeded"));
    assert!(!is_serv_u_error("Permission denied"));
    assert!(!is_serv_u_error(""));
}

#[test]
fn serv_u_status_keeps_message() {
    let e: Error = status(StatusCode::Failure, "Buffer Overflow detected").into();
    match e {
        Error::ServUCompatibility(m) => assert_eq!(m, "Buffer Overflow detected"),
        _ => panic!("expected a Serv-U error"),
    }
}

#[test]
fn client_error_texts() {
    assert_eq!(Error::Timeout.to_string(), "Timeout");
    assert_eq!(Error::IO("x".to_string()).to_string(), "I/O: x");
    assert_eq!(Error::Limited("y".to_string()).to_string(), "Limit exceeded: y");
    assert_eq!(
        Error::ServUCompatibility("z".to_string()).to_string(),
        "Serv-U compatibility error: z"
    );
    assert_eq!(Error::UnexpectedPacket.to_string(), "Unexpected packet");
    assert_eq!(Error::UnexpectedBehavior("w".to_string()).to_string(), "w");
    assert_eq!(
        Error::Status(status(StatusCode::NoSuchFile, "gone")).to_string(),
        "No such file: gone"
    );
}

#[test]
fn core_and_client_errors_convert() {
    let core: CoreError = Error::Timeout.into();
    match core {
        CoreError::Client(m) => assert_eq!(m, "Timeout"),
        _ => panic!("expected a client error"),
    }
    assert_eq!(
        CoreError::Client("Timeout".to_string()).to_string(),
        "Client error. (Timeout)"
    );
    let client: Error = CoreError::BadMessage("short".to_string()).into();
    match client {
        Error::UnexpectedBehavior(m) => assert_eq!(m, "Bad message: short"),
        _ => panic!("expected unexpected behavior"),
    }
    assert_eq!(CoreError::UnexpectedEof.to_string(), "Unexpected EOF on stream");
    assert_eq!(CoreError::IO("a".to_string()).to_string(), "I/O: a");
    assert_eq!(
        CoreError::UnexpectedBehavior("b".to_string()).to_string(),
        "Unexpected behavior: b"
    );
}

#[test]
fn io_failures_become_core_errors() {
    let eof = std::io::Error::new(std::io::ErrorKind::UnexpectedEof, "cut");
    assert!(matches!(CoreError::from_io_error(eof), CoreError::UnexpectedEof));
    let other_eof = std::io::Error::new(std::io::ErrorKind::Other, "EOF");
    assert!(matches!(CoreError::from_io_error(other_eof), CoreError::UnexpectedEof));
    let other = std::io::Error::new(std::io::ErrorKind::Other, "boom");
    assert!(matches!(CoreError::from_io_error(other), CoreError::IO(_)));
    let missing = std::io::Error::new(std::io::ErrorKind::NotFound, "no");
    match CoreError::from_io_error(missing) {
        CoreError::IO(m) => assert_eq!(m, std::io::ErrorKind::NotFound.to_string()),
        _ => panic!("expected an I/O error"),
    }
    assert!(matches!(
        CoreError::from_io_parts(IoFailureKind::Different, "EOF".to_string(), "k".to_string()),
        CoreError::IO(m) if m == "k"
    ));
    let client = Error::from_io_error(std::io::Error::new(std::io::ErrorKind::NotFound, "File not found"));
    match client {
        Error::IO(m) => assert_eq!(m, "File not found"),
        _ => panic!("expected an I/O error"),
    }
    let core: CoreError = std::io::Error::new(std::io::ErrorKind::Other, "EOF").into();
    assert!(matches!(core, CoreError::UnexpectedEof));
    let core: CoreError = std::io::Error::new(std::io::ErrorKind::Other, "EOFs").into();
    match core {
        CoreError::IO(m) => assert_eq!(m, std::io::ErrorKind::Other.to_string()),
        _ => panic!("expected an I/O error"),
    }
}

#[test]
fn buffer_underflow_message() {
    match CoreError::buffer_underflow(3, 4) {
        CoreError::BadMessage(m) => assert_eq!(m, "only 3 bytes remaining, but 4 requested"),
        _ => panic!("expected a bad message"),
    }
    let err = bytes::TryGetError { requested: 4, available: 1 };
    match CoreError::from_try_get(err) {
        CoreError::BadMessage(m) => assert_eq!(m, "only 1 bytes remaining, but 4 requested"),
        _ => panic!("expected a bad message"),
    }
    let converted: CoreError = bytes::TryGetError { requested: 8, available: 5 }.into();
    match converted {
        CoreError::BadMessage(m) => assert_eq!(m, "only 5 bytes remaining, but 8 requested"),
        _ => panic!("expected a bad message"),
    }
}

#[test]
fn short_u64_field_reports_counts() {
    let mut buf = bytes::Bytes::from(vec![1u8, 2, 3]);
    match read_u64_field(&mut buf) {
        Err(CoreError::BadMessage(m)) => assert_eq!(m, "only 3 bytes remaining, but 8 requested"),
        _ => panic!("expected a bad message"),
    }
    assert_eq!(buf.len(), 3);
    let mut full = bytes::Bytes::from(vec![0u8, 0, 0, 0, 0, 0, 1, 2, 9]);
    assert_eq!(read_u64_field(&mut full).unwrap(), 258);
    assert_eq!(full.len(), 1);
}

#[test]
fn fields_are_read_in_order() {
    let mut data = field(b"hello");
    data.extend(field(b""));
    data.extend_from_slice(b"tail");
    let mut buf = bytes::Bytes::from(data);
    assert_eq!(buf.try_get_bytes().unwrap(), b"hello".to_vec());
    assert_eq!(buf.try_get_string().unwrap(), "");
    assert_eq!(&buf[..], b"tail");
}

#[test]
fn invalid_utf8_is_replaced() {
    let mut buf = bytes::Bytes::from(field(&[0x61, 0xff, 0x62]));
    assert_eq!(buf.try_get_string().unwrap(), "a\u{FFFD}b");
}

#[test]
fn missing_length_prefix_is_unexpected() {
    let mut buf = bytes::Bytes::from(vec![0u8, 1]);
    match buf.try_get_bytes() {
        Err(CoreError::UnexpectedBehavior(m)) => assert_eq!(
            m,
            "Not enough bytes remaining in buffer to read value (requested 4 but only 2 available)"
        ),
        _ => panic!("expected an unexpected-behavior error"),
    }
    assert_eq!(buf.len(), 2);
}

#[test]
fn oversized_field_is_rejected() {
    let mut buf = bytes::Bytes::from(vec![0u8, 0x10, 0, 1, 9, 9]);
    match buf.try_get_bytes() {
        Err(CoreError::BadMessage(m)) => {
            assert_eq!(m, "Field size 1048577 exceeds maximum allowed size of 1048576")
        }
        _ => panic!("expected a bad message"),
    }
    assert_eq!(buf.len(), 2);
}

#[test]
fn truncated_field_is_rejected() {
    let mut buf = bytes::Bytes::from(vec![0u8, 0, 0, 5, 1, 2]);
    match buf.try_get_bytes() {
        Err(CoreError::BadMessage(m)) => assert_eq!(m, "Insufficient bytes: need 5, have 2"),
        _ => panic!("expected a bad message"),
    }
}

#[test]
fn packet_length_limits() {
    match check_packet_length(0) {
        Err(CoreError::BadMessage(m)) => assert_eq!(m, "Empty packet received"),
        _ => panic!("expected a bad message"),
    }
    assert!(check_packet_length(1).is_ok());
    assert!(check_packet_length(MAX_PACKET_SIZE).is_ok());
    match check_packet_length(MAX_PACKET_SIZE + 1) {
        Err(CoreError::BadMessage(m)) => {
            assert_eq!(m, "Packet size 16777217 exceeds maximum allowed size of 16777216")
        }
        _ => panic!("expected a bad message"),
    }
    assert!(check_packet_length(u32::MAX).is_err());
}

#[test]
fn packet_timeout_errors() {
    match length_timeout_error() {
        CoreError::IO(m) => assert_eq!(m, "Timeout reading packet length after 30 seconds"),
        _ => panic!("expected an I/O error"),
    }
    match data_timeout_error(512) {
        CoreError::IO(m) => assert_eq!(m, "Timeout reading 512 byte packet after 30 seconds"),
        _ => panic!("expected an I/O error"),
    }
}

#[test]
fn unix_time_in_seconds() {
    let t = std::time::UNIX_EPOCH + std::time::Duration::from_secs(1_700_000_000);
    assert_eq!(unix(t), 1_700_000_000);
    let later = std::time::UNIX_EPOCH + std::time::Duration::from_secs(4_294_967_296 + 5);
    assert_eq!(unix(later), 5);
    let before = std::time::UNIX_EPOCH - std::time::Duration::from_millis(1500);
    assert_eq!(unix(before), u32::MAX - 1);
}

#[test]
fn unix_time_at_the_representable_edges() {
    let latest = std::time::UNIX_EPOCH
        + std::time::Duration::new(MAX_UTC_TIMESTAMP as u64, 999_999_999);
    assert_eq!(unix(latest), (MAX_UTC_TIMESTAMP as u64 % 4_294_967_296) as u32);
    let earliest = std::time::UNIX_EPOCH
        - std::time::Duration::from_secs(MIN_UTC_TIMESTAMP.unsigned_abs());
    assert_eq!(unix(earliest), 1_930_292_736);
}

#[test]
fn metrics_count_requests() {
    let mut m = Metrics::new();
    assert_eq!(m.connection_state(), ConnectionState::Connecting);
    let h1 = m.record_request_start();
    let h2 = m.record_request_start();
    assert_eq!(m.snapshot().active_requests, 2);
    h1.record_success(&mut m);
    assert_eq!(m.connection_state(), ConnectionState::Healthy);
    h2.record_failure(&mut m);
    m.record_retry();
    let s = m.snapshot();
    assert_eq!(s.total_requests, 2);
    assert_eq!(s.successful_requests, 1);
    assert_eq!(s.active_requests, 0);
    assert_eq!(s.retried_requests, 1);
    assert!(s.latency_p50_ms.is_some());
    assert!(s.latency_p50_ms <= s.latency_p95_ms && s.latency_p95_ms <= s.latency_p99_ms);
}

#[test]
fn metrics_health_follows_error_rate() {
    let mut m = Metrics::new();
    for _ in 0..10 {
        let h = m.record_request_start();
        h.record_success(&mut m);
    }
    m.record_error("timeout", "t".to_string());
    // 1 failure in 10 requests: exactly 10%, still healthy
    assert_eq!(m.connection_state(), ConnectionState::Healthy);
    m.record_error("io", "i".to_string());
    assert_eq!(m.connection_state(), ConnectionState::Degraded);
    m.record_error("protocol", "p".to_string());
    m.record_error("other", "o".to_string());
    let s = m.snapshot();
    assert_eq!(s.failed_requests, 4);
    assert_eq!(s.timeout_errors, 1);
    assert_eq!(s.io_errors, 1);
    assert_eq!(s.protocol_errors, 1);
    m.set_connection_state(ConnectionState::Disconnected);
    m.record_error("io", "again".to_string());
    assert_eq!(m.connection_state(), ConnectionState::Disconnected);
    m.reset();
    let s = m.snapshot();
    assert_eq!(s.total_requests, 0);
    assert_eq!(s.failed_requests, 0);
    assert_eq!(s.latency_p99_ms, None);
    assert_eq!(s.connection_state, ConnectionState::Connecting);
}

#[test]
fn few_requests_do_not_change_health() {
    let mut m = Metrics::default();
    let _h = m.record_request_start();
    m.record_error("io", "x".to_string());
    assert_eq!(m.connection_state(), ConnectionState::Connecting);
}

#[test]
fn latency_window_is_bounded() {
    let mut m = Metrics::new();
    for _ in 0..1005 {
        let h = m.record_request_start();
        h.record_success(&mut m);
    }
    let s = m.snapshot();
    assert_eq!(s.successful_requests, 1005);
    assert!(s.latency_p99_ms.is_some());
}

#[test]
fn limits_from_extension() {
    let l = Limits::from(LimitsExtension {
        max_packet_len: 34000,
        max_read_len: 0,
        max_write_len: 32768,
        max_open_handles: 5,
    });
    assert_eq!(l.read_len, None);
    assert_eq!(l.write_len, Some(32768));
    assert_eq!(l.open_handles, Some(5));
}

#[test]
fn reply_validation() {
    assert!(matches!(validate_reply(Some(1), None), Err(Error::UnexpectedPacket)));
    assert!(matches!(validate_reply(None, Some(3)), Err(Error::UnexpectedBehavior(m)) if m == "Duplicate version"));
    assert!(validate_reply(None, None).is_ok());
    assert!(validate_reply(Some(2), Some(3)).is_ok());
    assert!(matches!(unknown_recipient_error(Some(5)), Error::UnexpectedBehavior(m) if m == "Packet Some(5) for unknown recipient"));
    assert!(matches!(unknown_recipient_error(None), Error::UnexpectedBehavior(m) if m == "Packet None for unknown recipient"));
}

#[test]
fn replies_are_interpreted() {
    let h = Packet::Handle(Handle { id: 1, handle: "h1".to_string() });
    assert_eq!(expect_handle(h.clone()).unwrap().handle, "h1");
    assert!(matches!(expect_data(h.clone()), Err(Error::UnexpectedPacket)));
    assert!(matches!(
        expect_handle(Packet::Status(status(StatusCode::PermissionDenied, "no"))),
        Err(Error::Status(s)) if s.status_code == StatusCode::PermissionDenied
    ));
    assert!(matches!(
        expect_name(Packet::Status(status(StatusCode::Failure, "connection reset by peer"))),
        Err(Error::ServUCompatibility(_))
    ));
    assert!(expect_status(Packet::Status(status(StatusCode::Okay, ""))).is_ok());
    assert!(matches!(
        expect_status(Packet::Status(status(StatusCode::Eof, ""))),
        Err(Error::Status(_))
    ));
    assert!(matches!(expect_status(h.clone()), Err(Error::UnexpectedPacket)));
    let a = Packet::Attrs(Attrs { id: 2, attrs: FileAttributes::default() });
    assert!(expect_attrs(a).is_ok());
    let d = Packet::Data(Data { id: 3, data: vec![1, 2] });
    assert_eq!(expect_data(d).unwrap().data, vec![1, 2]);
    let v = Packet::Version(Version { version: 3, extensions: vec![] });
    assert_eq!(expect_version(v).unwrap().version, 3);
    assert!(matches!(expect_version(h), Err(Error::UnexpectedPacket)));
    let r = Packet::ExtendedReply(ExtendedReply { id: 4, data: vec![9] });
    assert_eq!(expect_extended_data(r).unwrap(), vec![9]);
    assert!(matches!(
        expect_extended_data(Packet::Status(status(StatusCode::Failure, "buffer overflow"))),
        Err(Error::Status(_))
    ));
    assert!(matches!(
        expect_extended_data(Packet::Status(status(StatusCode::Okay, ""))),
        Err(Error::UnexpectedPacket)
    ));
}

#[test]
fn session_ids_and_handles() {
    let mut s = SessionState::new();
    assert_eq!(s.timeout(), 10);
    assert_eq!(s.use_next_id(), 1);
    assert_eq!(s.use_next_id(), 2);
    assert!(s.check_open().is_ok());
    s.set_limits(Limits { read_len: Some(100), write_len: Some(50), open_handles: Some(1) });
    let handle = Packet::Handle(Handle { id: 1, handle: "h".to_string() });
    s.on_open_reply(&handle);
    assert_eq!(s.open_handles(), 1);
    assert!(matches!(s.check_open(), Err(Error::Limited(m)) if m == "handle limit reached"));
    assert!(matches!(s.check_opendir(), Err(Error::Limited(m)) if m == "Handle limit reached"));
    s.on_close_reply(&Packet::Status(status(StatusCode::Failure, "")));
    assert_eq!(s.open_handles(), 1);
    s.on_close_reply(&Packet::Status(status(StatusCode::Okay, "")));
    assert_eq!(s.open_handles(), 0);
    s.on_close_reply(&Packet::Status(status(StatusCode::Okay, "")));
    assert_eq!(s.open_handles(), 0);
    assert!(s.check_read(100).is_ok());
    assert!(matches!(s.check_read(101), Err(Error::Limited(m)) if m == "read limit reached"));
    assert!(s.check_write(50).is_ok());
    assert!(matches!(s.check_write(51), Err(Error::Limited(m)) if m == "write limit reached"));
}

#[test]
fn client_handle_limit_combines_with_server_limit() {
    let mut s = SessionState::new();
    assert_eq!(s.handle_limit(), None);
    s.enable_serv_u_connection_limits();
    assert_eq!(s.handle_limit(), Some(10));
    s.set_limits(Limits { read_len: None, write_len: None, open_handles: Some(4) });
    assert_eq!(s.handle_limit(), Some(4));
    s.set_max_concurrent_handles(2);
    assert_eq!(s.handle_limit(), Some(2));
}

#[test]
fn retry_policy() {
    let mut s = SessionState::new();
    assert_eq!(s.retry_decision(0, &Error::Timeout), RetryDecision::RetryAfter(100));
    assert_eq!(s.retry_decision(1, &Error::Timeout), RetryDecision::RetryAfter(200));
    assert_eq!(s.retry_decision(2, &Error::Timeout), RetryDecision::RetryAfter(400));
    assert_eq!(s.retry_decision(3, &Error::Timeout), RetryDecision::GiveUp);
    let perm = Error::Status(status(StatusCode::PermissionDenied, "denied"));
    assert_eq!(s.retry_decision(0, &perm), RetryDecision::GiveUp);
    s.set_max_retries(0);
    assert_eq!(s.retry_decision(0, &Error::Timeout), RetryDecision::GiveUp);
    s.set_max_retries(5);
    s.set_retry_delay(200);
    assert_eq!(
        s.retry_decision(3, &Error::ServUCompatibility("x".to_string())),
        RetryDecision::RetryAfter(1600)
    );
    assert!(is_retryable(&Error::UnexpectedBehavior("Error: recv none message occurred".to_string())));
    assert!(!is_retryable(&Error::UnexpectedBehavior("session closed".to_string())));
    assert!(!is_retryable(&Error::UnexpectedPacket));
}

#[test]
fn backoff_delays() {
    assert_eq!(backoff_delay_ms(50, 0), 50);
    assert_eq!(backoff_delay_ms(50, 3), 400);
    assert_eq!(backoff_delay_ms(100, 19), 100 * (1u64 << 19));
    assert_eq!(backoff_delay_ms(0, 1000), 0);
    assert_eq!(backoff_delay_ms(u64::MAX / 2 + 1, 1), u64::MAX);
    assert_eq!(backoff_delay_ms(1, 64), u64::MAX);
    assert_eq!(backoff_delay_ms(1, 63), 1u64 << 63);
}

#[test]
fn throttling_and_shutdown() {
    let mut s = SessionState::new();
    assert_eq!(s.throttle_wait_ms(0), 0);
    s.enable_serv_u_throttling();
    assert_eq!(s.throttle_wait_ms(3), 7);
    assert_eq!(s.throttle_wait_ms(10), 0);
    s.set_request_throttling(25);
    assert_eq!(s.throttle_wait_ms(5), 20);
    assert_eq!(shutdown_step(0, 0, 30), ShutdownStep::Finished(true));
    assert_eq!(shutdown_step(2, 29_999, 30), ShutdownStep::Wait);
    assert_eq!(shutdown_step(2, 30_000, 30), ShutdownStep::Finished(false));
}

#[test]
fn read_and_write_sizes() {
    let server = Some(Limits { read_len: Some(4096), write_len: None, open_handles: None });
    assert!(should_use_conservative_limits(None));
    assert!(!should_use_conservative_limits(server));
    assert_eq!(max_read_len(None), 16384);
    assert_eq!(max_read_len(server), 4096);
    assert_eq!(max_write_len(server), 32768);
    assert_eq!(read_request_len(None, 100_000), 16384);
    assert_eq!(read_request_len(server, 100), 100);
    assert_eq!(write_request_len(server, 100_000), 32768);
    assert_eq!(write_request_len(None, 10), 10);
}

#[test]
fn empty_data_is_not_end_of_file() {
    let empty: Result<Data, Error> = Ok(Data { id: 1, data: vec![] });
    assert_eq!(read_outcome(empty).unwrap(), Some(vec![]));
    let eof: Result<Data, Error> = Err(Error::Status(status(StatusCode::Eof, "")));
    assert_eq!(read_outcome(eof).unwrap(), None);
    let failure: Result<Data, Error> = Err(Error::Status(status(StatusCode::Failure, "x")));
    assert!(matches!(read_outcome(failure), Err(Error::Status(_))));
    assert!(matches!(read_outcome(Err(Error::Timeout)), Err(Error::Timeout)));
}

#[test]
fn seek_positions() {
    assert_eq!(resolve_seek(10, SeekTarget::Start(5), None), Ok(5));
    assert_eq!(resolve_seek(10, SeekTarget::Current(-3), None), Ok(7));
    assert_eq!(resolve_seek(10, SeekTarget::Current(-11), None), Err(SeekError::BeforeStart));
    assert_eq!(resolve_seek(10, SeekTarget::End(-2), Some(100)), Ok(98));
    assert_eq!(resolve_seek(10, SeekTarget::End(0), None), Err(SeekError::FileSizeUnknown));
    assert_eq!(resolve_seek(0, SeekTarget::Start(u64::MAX), None), Err(SeekError::BeforeStart));
}

fn version(exts: &[(&str, &str)]) -> Version {
    Version {
        version: 3,
        extensions: exts.iter().map(|(a, b)| (a.to_string(), b.to_string())).collect(),
    }
}

#[test]
fn extensions_are_negotiated() {
    let v = version(&[
        ("hardlink@openssh.com", "1"),
        ("fsync@openssh.com", "2"),
        ("statvfs@openssh.com", "2"),
        ("limits@openssh.com", "1"),
    ]);
    let e = extensions_of(&v);
    assert!(e.hardlink);
    assert!(!e.fsync);
    assert!(e.statvfs);
    assert!(e.limits.is_none());
    assert!(wants_limits(&v));
    assert!(!wants_limits(&version(&[])));
}

#[test]
fn existence_checks() {
    assert_eq!(try_exists_outcome(Ok(FileAttributes::default())).unwrap(), true);
    let missing = Err(Error::Status(status(StatusCode::NoSuchFile, "")));
    assert_eq!(try_exists_outcome(missing).unwrap(), false);
    let denied = Err(Error::Status(status(StatusCode::PermissionDenied, "")));
    assert!(try_exists_outcome(denied).is_err());
}

fn entry(name: &str) -> File {
    File { filename: name.to_string(), longname: String::new(), attrs: FileAttributes::default() }
}

#[test]
fn names_and_listings() {
    let n = Name { id: 1, files: vec![entry("/home/a"), entry("b")] };
    assert_eq!(first_filename(n.clone()).unwrap(), "/home/a");
    let empty = Name { id: 2, files: vec![] };
    assert!(matches!(first_filename(empty), Err(Error::UnexpectedBehavior(m)) if m == "no file"));
    let listed = prepend_entries(n, vec![]);
    let listed = prepend_entries(Name { id: 3, files: vec![entry("c")] }, listed);
    let names: Vec<&str> = listed.iter().map(|(f, _)| f.as_str()).collect();
    assert_eq!(names, vec!["c", "/home/a", "b"]);
    assert!(matches!(dir_step(Ok(Name { id: 4, files: vec![] })), DirStep::More(_)));
    assert!(matches!(dir_step(Err(Error::Status(status(StatusCode::Eof, "")))), DirStep::Done));
    assert!(matches!(dir_step(Err(Error::Timeout)), DirStep::Failed(Error::Timeout)));
}

#[test]
fn reading_stops_only_at_stream_end() {
    assert_eq!(step_after(&Err(CoreError::UnexpectedEof)), LoopStep::Stop);
    assert_eq!(step_after(&Ok(())), LoopStep::Continue);
    assert_eq!(step_after(&Err(CoreError::IO("reset".to_string()))), LoopStep::Continue);
    assert_eq!(
        step_after(&Err(CoreError::BadMessage("short".to_string()))),
        LoopStep::Continue
    );
    let closed: CoreError = std::io::Error::new(std::io::ErrorKind::UnexpectedEof, "gone").into();
    assert_eq!(step_after(&Err(closed)), LoopStep::Stop);
    let refused: CoreError = std::io::Error::new(std::io::ErrorKind::BrokenPipe, "pipe").into();
    assert_eq!(step_after(&Err(refused)), LoopStep::Continue);
}

#[test]
fn failures_are_counted_by_category() {
    assert_eq!(Error::Timeout.category(), "timeout");
    assert_eq!(Error::IO("x".to_string()).category(), "io");
    assert_eq!(Error::UnexpectedPacket.category(), "protocol");
    assert_eq!(Error::Limited("l".to_string()).category(), "protocol");
    let mut m = Metrics::new();
    let e = Error::Timeout;
    m.record_error(e.category(), e.to_string());
    assert_eq!(m.snapshot().timeout_errors, 1);
    assert_eq!(m.snapshot().io_errors, 0);
}

#[test]
fn extension_lookup_finds_the_named_entry() {
    let v = Version {
        version: 3,
        extensions: vec![
            ("statvfs@openssh.com".to_string(), "2".to_string()),
            ("hardlink@openssh.com".to_string(), "1".to_string()),
        ],
    };
    let e = extensions_of(&v);
    assert!(e.statvfs);
    assert!(e.hardlink);
    assert!(!e.fsync);
    assert!(!wants_limits(&v));
}

#[test]
fn checked_unix_time_refuses_unrepresentable_times() {
    let t = std::time::UNIX_EPOCH + std::time::Duration::from_secs(1_700_000_000);
    assert_eq!(unix_checked(t), Some(1_700_000_000));
    let before = std::time::UNIX_EPOCH - std::time::Duration::from_millis(1500);
    assert_eq!(unix_checked(before), Some(u32::MAX - 1));
    assert_eq!(unix_checked(std::time::UNIX_EPOCH), Some(0));
    let latest = std::time::UNIX_EPOCH
        + std::time::Duration::new(MAX_UTC_TIMESTAMP as u64, 999_999_999);
    assert_eq!(unix_checked(latest), Some(unix(latest)));
    let too_late = std::time::UNIX_EPOCH + std::time::Duration::from_secs(MAX_UTC_TIMESTAMP as u64 + 1);
    assert_eq!(unix_checked(too_late), None);
    let earliest = std::time::UNIX_EPOCH
        - std::time::Duration::from_secs(MIN_UTC_TIMESTAMP.unsigned_abs());
    assert_eq!(unix_checked(earliest), Some(1_930_292_736));
    let too_early = earliest - std::time::Duration::from_nanos(1);
    assert_eq!(unix_checked(too_early), None);
}

#[test]
fn serv_u_phrases_are_found_in_context_and_any_case() {
    assert!(is_serv_u_error("Error: CONNECTION RESET by peer (code 7)"));
    assert!(is_serv_u_error("xx Buffer Overflow yy"));
    assert!(!is_serv_u_error("File not found"));
    assert!(!is_serv_u_error("connection was reset"));
}

#[test]
fn replies_are_routed_by_request_id() {
    assert_eq!(Packet::Handle(Handle { id: 41, handle: "h".to_string() }).recipient(), Some(41));
    assert_eq!(Packet::Status(status(StatusCode::Okay, "")).recipient(), Some(7));
    let v = Packet::Version(Version { version: 3, extensions: vec![] });
    assert_eq!(v.recipient(), None);
}
