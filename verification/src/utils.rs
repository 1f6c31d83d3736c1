//! Packet framing limits, the errors of a packet read, when a loop
//! reading packets ends, and the 32-bit time of SFTP attributes.

use vstd::prelude::*;
use vstd::string::StringExecFns;

use crate::error::{is_io_failure_error, Error, IoFailureKind};
use crate::text::{decimal, owned, push_decimal};

verus! {

#[verifier::external_type_specification]
#[verifier::external_body]
pub struct ExSystemTime(std::time::SystemTime);

/// Maximum allowed packet size (16 MiB), against memory exhaustion.
pub const MAX_PACKET_SIZE: u32 = 16777216;

/// Time allowed for reading a packet's length and for reading its data
/// (30 seconds each).
pub const PACKET_READ_TIMEOUT_SECS: u64 = 30;

/// Message of a packet announcing more than `MAX_PACKET_SIZE` bytes.
pub open spec fn oversize_packet_message(length: nat) -> Seq<char> {
    "Packet size "@ + decimal(length) + " exceeds maximum allowed size of "@ + decimal(
        MAX_PACKET_SIZE as nat,
    )
}

/// Checks the length announced by a packet header: a packet is accepted
/// when it is neither empty nor larger than `MAX_PACKET_SIZE`.
pub fn check_packet_length(length: u32) -> (r: Result<(), Error>)
    ensures
        length == 0 ==> (r matches Err(Error::BadMessage(m)) && m@ == "Empty packet received"@),
        length > MAX_PACKET_SIZE ==> (r matches Err(Error::BadMessage(m)) && m@
            == oversize_packet_message(length as nat)),
        0 < length <= MAX_PACKET_SIZE ==> r is Ok,
{
    if length == 0 {
        return Err(Error::BadMessage(owned("Empty packet received")));
    }
    if length > MAX_PACKET_SIZE {
        let mut m = owned("Packet size ");
        push_decimal(&mut m, length as u64);
        m.append(" exceeds maximum allowed size of ");
        push_decimal(&mut m, MAX_PACKET_SIZE as u64);
        return Err(Error::BadMessage(m));
    }
    Ok(())
}

/// The error of a packet whose length did not arrive in time.
pub fn length_timeout_error() -> (r: Error)
    ensures
        r matches Error::IO(m) && m@ == "Timeout reading packet length after "@ + decimal(
            PACKET_READ_TIMEOUT_SECS as nat,
        ) + " seconds"@,
{
    let mut m = owned("Timeout reading packet length after ");
    push_decimal(&mut m, PACKET_READ_TIMEOUT_SECS);
    m.append(" seconds");
    Error::IO(m)
}

/// The error of a packet of `length` bytes whose data did not arrive in
/// time.
pub fn data_timeout_error(length: u32) -> (r: Error)
    ensures
        r matches Error::IO(m) && m@ == "Timeout reading "@ + decimal(length as nat)
            + " byte packet after "@ + decimal(PACKET_READ_TIMEOUT_SECS as nat) + " seconds"@,
{
    let mut m = owned("Timeout reading ");
    push_decimal(&mut m, length as u64);
    m.append(" byte packet after ");
    push_decimal(&mut m, PACKET_READ_TIMEOUT_SECS);
    m.append(" seconds");
    Error::IO(m)
}

/// The position of the point in time `t`: signed nanoseconds from the
/// Unix epoch (negative before it).
pub uninterp spec fn epoch_nanos(t: std::time::SystemTime) -> int;

/// The nanoseconds a `Duration` spans.
pub uninterp spec fn duration_nanos(d: std::time::Duration) -> int;

/// Whole seconds from the Unix epoch to `t`, rounded down (negative
/// before the epoch): the timestamp of `t` as a UTC date and time.
pub open spec fn utc_timestamp_of(t: std::time::SystemTime) -> int {
    epoch_nanos(t) / 1_000_000_000
}

/// The first second of the earliest UTC date that chrono represents
/// (-262143-01-01), in seconds from the Unix epoch.
pub const MIN_UTC_TIMESTAMP: i64 = -8334601228800;

/// The last second of the latest UTC date that chrono represents
/// (262142-12-31), in seconds from the Unix epoch.
pub const MAX_UTC_TIMESTAMP: i64 = 8210266876799;

/// `t` falls within the dates chrono represents.
pub open spec fn utc_representable(t: std::time::SystemTime) -> bool {
    MIN_UTC_TIMESTAMP <= utc_timestamp_of(t) <= MAX_UTC_TIMESTAMP
}

/// Wrapper of `chrono::DateTime::<Utc>::from(SystemTime)` followed by
/// `timestamp()`: whole seconds since the Unix epoch, rounded down.  The
/// conversion panics for a time outside the dates chrono represents; the
/// `requires` keeps such times out.
#[verifier::external_body]
fn utc_timestamp(time: std::time::SystemTime) -> (r: i64)
    requires
        utc_representable(time),
    ensures
        r == epoch_nanos(time) / 1_000_000_000,
{
    chrono::DateTime::<chrono::Utc>::from(time).timestamp()
}

/// Wrapper of `SystemTime::duration_since(UNIX_EPOCH)`: how far after the
/// epoch `time` lies (`Ok`, also for the epoch itself), or, taken from the
/// error, how far before it (`Err`).
#[verifier::external_body]
fn since_epoch(time: &std::time::SystemTime) -> (r: Result<
    std::time::Duration,
    std::time::Duration,
>)
    ensures
        r matches Ok(d) ==> epoch_nanos(*time) >= 0 && duration_nanos(d) == epoch_nanos(*time),
        r matches Err(d) ==> epoch_nanos(*time) < 0 && duration_nanos(d) == -epoch_nanos(*time),
{
    match time.duration_since(std::time::UNIX_EPOCH) {
        Ok(d) => Ok(d),
        Err(e) => Err(e.duration()),
    }
}

/// Wrapper of `Duration::as_nanos`: the nanoseconds `d` spans.
#[verifier::external_body]
fn duration_as_nanos(d: &std::time::Duration) -> (r: u128)
    ensures
        r == duration_nanos(*d),
{
    d.as_nanos()
}

/// Seconds since the Unix epoch as the 32-bit time of SFTP attributes
/// (the low 32 bits of the timestamp).
pub fn unix(time: std::time::SystemTime) -> (r: u32)
    requires
        utc_representable(time),
    ensures
        r == utc_timestamp_of(time) as u32,
{
    let t = utc_timestamp(time);
    t as u32
}

/// `unix` for any time: `None` for a time outside the dates chrono
/// represents.
pub fn unix_checked(time: std::time::SystemTime) -> (r: Option<u32>)
    ensures
        r is Some <==> utc_representable(time),
        r matches Some(v) ==> v == utc_timestamp_of(time) as u32,
{
    let fits = match since_epoch(&time) {
        Ok(d) => {
            let n = duration_as_nanos(&d);
            n / 1_000_000_000 <= MAX_UTC_TIMESTAMP as u128
        },
        Err(d) => {
            let n = duration_as_nanos(&d);
            let earliest = (0 - MIN_UTC_TIMESTAMP) as u128;
            n <= earliest * 1_000_000_000
        },
    };
    proof {
        let e = epoch_nanos(time);
        let ts = e / 1_000_000_000;
        if e < 0 {
            assert(ts < 0) by (nonlinear_arith)
                requires
                    e < 0,
                    ts == e / 1_000_000_000,
            ;
            assert((ts >= MIN_UTC_TIMESTAMP) <==> (e >= MIN_UTC_TIMESTAMP * 1_000_000_000))
                by (nonlinear_arith)
                requires
                    ts == e / 1_000_000_000,
            ;
        } else {
            assert(ts >= 0) by (nonlinear_arith)
                requires
                    e >= 0,
                    ts == e / 1_000_000_000,
            ;
        }
    }
    if fits {
        Some(unix(time))
    } else {
        None
    }
}

/// What a loop reading packets from a stream (the server's request loop,
/// the client's reply loop) does once a packet has been processed.
#[derive(Debug, Clone, Copy, PartialEq, Eq, Structural)]
pub enum LoopStep {
    /// Read the next packet.
    Continue,
    /// The peer closed the stream: stop reading.
    Stop,
}

/// The outcome of processing one packet ends the session: the stream
/// reached its end.
pub open spec fn ends_session(outcome: Result<(), Error>) -> bool {
    outcome matches Err(Error::UnexpectedEof)
}

/// The loop stops when the stream has ended and keeps reading after any
/// other outcome: a packet that failed does not end the session.
pub fn step_after(outcome: &Result<(), Error>) -> (r: LoopStep)
    ensures
        r == LoopStep::Stop <==> ends_session(*outcome),
{
    match outcome {
        Err(Error::UnexpectedEof) => LoopStep::Stop,
        _ => LoopStep::Continue,
    }
}

/// Among failures of the stream, exactly the end of the stream ends the
/// session: a failure of kind `UnexpectedEof`, or an `Other` failure whose
/// message is "EOF".  Every other I/O failure leaves the loop reading.
pub proof fn only_stream_end_stops_loop(
    e: Error,
    kind: IoFailureKind,
    inner_message: Seq<char>,
    kind_text: Seq<char>,
)
    requires
        is_io_failure_error(e, kind, inner_message, kind_text),
    ensures
        ends_session(Err(e)) <==> (kind == IoFailureKind::UnexpectedEof || (kind
            == IoFailureKind::Other && inner_message == "EOF"@)),
{
}

/// A loop reading packets stops only at the end of the stream: a
/// processed packet never stops it, and neither does any failure other
/// than the end of the stream (a reply for an unknown recipient, a
/// malformed packet, another I/O failure).
pub proof fn loop_stops_only_at_stream_end(outcome: Result<(), Error>)
    ensures
        ends_session(outcome) ==> outcome == Err::<(), Error>(Error::UnexpectedEof),
        outcome == Err::<(), Error>(Error::UnexpectedEof) ==> ends_session(outcome),
        !ends_session(Ok(())),
{
}

} // verus!
