//! How much a remote file read or write asks for in one request, how a
//! read reply is understood (only an explicit end-of-file status ends a
//! file), and where a seek lands.

use vstd::prelude::*;

use crate::client::error::Error;
use crate::client::rawsession::{Limits, SftpResult};
use crate::protocol::{Data, StatusCode};

verus! {

/// Default maximum read length for SFTP operations (32 KiB)
pub const MAX_READ_LENGTH: u64 = 32768;

/// Default maximum write length for SFTP operations (32 KiB)
pub const MAX_WRITE_LENGTH: u64 = 32768;

/// Read length used when the server announced no limits (16 KiB), for
/// servers with strict buffers such as SolarWinds Serv-U.
pub const CONSERVATIVE_MAX_READ_LENGTH: u64 = 16384;

/// Write length used when the server announced no limits (16 KiB).
pub const CONSERVATIVE_MAX_WRITE_LENGTH: u64 = 16384;

/// Largest read request: the server's read limit (32 KiB when it gave
/// none) when it supports `limits@openssh.com`, otherwise the
/// conservative 16 KiB.
pub open spec fn max_read_len_of(limits: Option<Limits>) -> u64 {
    match limits {
        Some(l) => match l.read_len {
            Some(r) => r,
            None => MAX_READ_LENGTH,
        },
        None => CONSERVATIVE_MAX_READ_LENGTH,
    }
}

/// Largest write request, chosen as for reads.
pub open spec fn max_write_len_of(limits: Option<Limits>) -> u64 {
    match limits {
        Some(l) => match l.write_len {
            Some(w) => w,
            None => MAX_WRITE_LENGTH,
        },
        None => CONSERVATIVE_MAX_WRITE_LENGTH,
    }
}

/// Whether the conservative sizes apply: the server did not support
/// `limits@openssh.com`.
pub fn should_use_conservative_limits(limits: Option<Limits>) -> (r: bool)
    ensures
        r == limits is None,
{
    limits.is_none()
}

/// Largest read request for the negotiated limits.
pub fn max_read_len(limits: Option<Limits>) -> (r: u64)
    ensures
        r == max_read_len_of(limits),
{
    match limits {
        Some(l) => match l.read_len {
            Some(r) => r,
            None => MAX_READ_LENGTH,
        },
        None => CONSERVATIVE_MAX_READ_LENGTH,
    }
}

/// Largest write request for the negotiated limits.
pub fn max_write_len(limits: Option<Limits>) -> (r: u64)
    ensures
        r == max_write_len_of(limits),
{
    match limits {
        Some(l) => match l.write_len {
            Some(w) => w,
            None => MAX_WRITE_LENGTH,
        },
        None => CONSERVATIVE_MAX_WRITE_LENGTH,
    }
}

/// Bytes asked for by one read into a buffer with room for `room` bytes:
/// the room, capped at the largest read request.
pub fn read_request_len(limits: Option<Limits>, room: usize) -> (r: usize)
    ensures
        r == (if room > max_read_len_of(limits) as usize {
            max_read_len_of(limits) as usize
        } else {
            room
        }),
        r <= room,
{
    let max = max_read_len(limits) as usize;
    if room > max {
        max
    } else {
        room
    }
}

/// Bytes sent by one write of `len` bytes: all of them, capped at the
/// largest write request.
pub fn write_request_len(limits: Option<Limits>, len: usize) -> (r: usize)
    ensures
        r == (if len > max_write_len_of(limits) as usize {
            max_write_len_of(limits) as usize
        } else {
            len
        }),
        r <= len,
{
    let max = max_write_len(limits) as usize;
    if len > max {
        max
    } else {
        len
    }
}

/// What a read reply means for the file: its data (possibly empty, which
/// is not the end of the file), the end of the file for an explicit
/// end-of-file status, or the failure.
pub open spec fn read_outcome_of(reply: SftpResult<Data>) -> SftpResult<Option<Seq<u8>>> {
    match reply {
        Ok(d) => Ok(Some(d.data@)),
        Err(Error::Status(s)) => if s.status_code == StatusCode::Eof {
            Ok(None)
        } else {
            Err(Error::Status(s))
        },
        Err(e) => Err(e),
    }
}

/// Interprets the reply to one read request.
pub fn read_outcome(reply: SftpResult<Data>) -> (r: SftpResult<Option<Vec<u8>>>)
    ensures
        match r {
            Ok(Some(v)) => read_outcome_of(reply) == Ok::<Option<Seq<u8>>, Error>(Some(v@)),
            Ok(None) => read_outcome_of(reply) == Ok::<Option<Seq<u8>>, Error>(None),
            Err(e) => read_outcome_of(reply) == Err::<Option<Seq<u8>>, Error>(e),
        },
{
    match reply {
        Ok(d) => Ok(Some(d.data)),
        Err(Error::Status(s)) => {
            if s.status_code == StatusCode::Eof {
                Ok(None)
            } else {
                Err(Error::Status(s))
            }
        },
        Err(e) => Err(e),
    }
}

/// Where a seek is measured from.
#[derive(Debug, Clone, Copy, PartialEq, Eq, Structural)]
pub enum SeekTarget {
    /// This many bytes from the start.
    Start(u64),
    /// This many bytes from the current position.
    Current(i64),
    /// This many bytes from the end.
    End(i64),
}

/// Why a seek was refused.
#[derive(Debug, Clone, Copy, PartialEq, Eq, Structural)]
pub enum SeekError {
    /// Seeking from the end, but the server did not report the size.
    FileSizeUnknown,
    /// The position would lie before the beginning of the file.
    BeforeStart,
}

/// The signed 64-bit reading of an unsigned position (two's complement).
pub open spec fn signed_of(v: u64) -> int {
    if v <= i64::MAX {
        v as int
    } else {
        v - 18446744073709551616
    }
}

/// The position a seek aims at, before the check that it is not negative.
pub open spec fn seek_aim(cur: u64, target: SeekTarget, size: u64) -> int {
    match target {
        SeekTarget::Start(p) => signed_of(p),
        SeekTarget::Current(d) => signed_of(cur) + d,
        SeekTarget::End(d) => signed_of(size) + d,
    }
}

/// The aimed position is representable as a signed 64-bit offset.
pub open spec fn seek_in_range(cur: u64, target: SeekTarget, size: Option<u64>) -> bool {
    match target {
        SeekTarget::Start(_) => true,
        SeekTarget::Current(_) => i64::MIN <= seek_aim(cur, target, 0) <= i64::MAX,
        SeekTarget::End(_) => match size {
            Some(s) => i64::MIN <= seek_aim(cur, target, s) <= i64::MAX,
            None => true,
        },
    }
}

fn signed_offset(v: u64) -> (r: i64)
    ensures
        r == signed_of(v),
{
    if v <= i64::MAX as u64 {
        v as i64
    } else {
        let low = (v - 9223372036854775808u64) as i64;
        low + i64::MIN
    }
}

/// Whether a seek's aimed position fits a signed 64-bit offset (the
/// condition under which `resolve_seek` may be asked).
pub fn seek_fits(cur: u64, target: SeekTarget, size: Option<u64>) -> (r: bool)
    ensures
        r == seek_in_range(cur, target, size),
{
    match target {
        SeekTarget::Start(_) => true,
        SeekTarget::Current(d) => {
            let aim = signed_offset(cur) as i128 + d as i128;
            i64::MIN as i128 <= aim && aim <= i64::MAX as i128
        },
        SeekTarget::End(d) => match size {
            Some(s) => {
                let aim = signed_offset(s) as i128 + d as i128;
                i64::MIN as i128 <= aim && aim <= i64::MAX as i128
            },
            None => true,
        },
    }
}

/// The new position of a file at `cur` after seeking to `target`; `size`
/// is the file size reported by the server, needed when seeking from the
/// end.
pub fn resolve_seek(cur: u64, target: SeekTarget, size: Option<u64>) -> (r: Result<u64, SeekError>)
    requires
        seek_in_range(cur, target, size),
    ensures
        (target is End && size is None) ==> r == Err::<u64, SeekError>(SeekError::FileSizeUnknown),
        !(target is End && size is None) ==> ({
            let aim = seek_aim(
                cur,
                target,
                match size {
                    Some(s) => s,
                    None => 0,
                },
            );
            &&& aim < 0 ==> r == Err::<u64, SeekError>(SeekError::BeforeStart)
            &&& aim >= 0 ==> r == Ok::<u64, SeekError>(aim as u64)
        }),
{
    let new_pos: i64 = match target {
        SeekTarget::Start(p) => signed_offset(p),
        SeekTarget::Current(d) => signed_offset(cur) + d,
        SeekTarget::End(d) => match size {
            Some(s) => signed_offset(s) + d,
            None => {
                return Err(SeekError::FileSizeUnknown);
            },
        },
    };
    if new_pos < 0 {
        return Err(SeekError::BeforeStart);
    }
    Ok(new_pos as u64)
}

} // verus!

verus! {

/// Only an explicit end-of-file status ends a file: a read reply means
/// "end of file" exactly when it is an `Eof` status, and a data reply,
/// even an empty one, is data.
pub proof fn only_eof_status_ends_file(reply: SftpResult<Data>)
    ensures
        (read_outcome_of(reply) == Ok::<Option<Seq<u8>>, Error>(None)) <==> (reply matches Err(
            Error::Status(s),
        ) && s.status_code == StatusCode::Eof),
        reply matches Ok(d) ==> read_outcome_of(reply) == Ok::<Option<Seq<u8>>, Error>(
            Some(d.data@),
        ),
{
}

/// A request never asks for more than the limit in force, and with no
/// limits extension the conservative 16 KiB applies.
pub proof fn request_sizes_respect_limits(limits: Option<Limits>)
    ensures
        limits is None ==> max_read_len_of(limits) == CONSERVATIVE_MAX_READ_LENGTH
            && max_write_len_of(limits) == CONSERVATIVE_MAX_WRITE_LENGTH,
        limits matches Some(l) ==> (l.read_len matches Some(r) ==> max_read_len_of(limits) == r),
        limits matches Some(l) ==> (l.write_len matches Some(w) ==> max_write_len_of(limits)
            == w),
{
}

/// A failed read reply is never data: every failure other than an
/// end-of-file status is passed on unchanged, and data only ever comes
/// from a data reply, byte for byte.
pub proof fn failed_read_is_never_data(reply: SftpResult<Data>)
    ensures
        reply matches Err(e) ==> (!(e matches Error::Status(s) && s.status_code
            == StatusCode::Eof) ==> read_outcome_of(reply) == Err::<Option<Seq<u8>>, Error>(e)),
        read_outcome_of(reply) matches Ok(Some(bytes)) ==> (reply matches Ok(d) && d.data@
            == bytes),
{
}

} // verus!
