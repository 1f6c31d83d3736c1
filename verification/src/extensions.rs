//! OpenSSH protocol extensions the client knows by name, their request
//! payloads and the replies that carry data.

use vstd::prelude::*;
use vstd::utf8::encode_utf8;

use crate::buf::{be_u64, bytes_contents, bytes_from_vec, encode_field, put_bytes, read_u64_field};
use crate::error::Error;
use crate::text::owned;

verus! {

/// `limits@openssh.com`: the server's size and handle limits.
pub const LIMITS: &'static str = "limits@openssh.com";

/// `hardlink@openssh.com`: hard link creation.
pub const HARDLINK: &'static str = "hardlink@openssh.com";

/// `fsync@openssh.com`: flushing an open file to disk.
pub const FSYNC: &'static str = "fsync@openssh.com";

/// `statvfs@openssh.com`: file system statistics.
pub const STATVFS: &'static str = "statvfs@openssh.com";

/// Reply to `limits@openssh.com`; zero means "no limit".
#[derive(Debug, Clone, Copy, PartialEq, Eq, Structural)]
pub struct LimitsExtension {
    pub max_packet_len: u64,
    pub max_read_len: u64,
    pub max_write_len: u64,
    pub max_open_handles: u64,
}

/// Reply to `statvfs@openssh.com`: file system statistics.
#[derive(Debug, Clone, Copy, PartialEq, Eq, Structural)]
pub struct Statvfs {
    pub block_size: u64,
    pub fragment_size: u64,
    pub blocks: u64,
    pub blocks_free: u64,
    pub blocks_avail: u64,
    pub inodes: u64,
    pub inodes_free: u64,
    pub inodes_avail: u64,
    pub fs_id: u64,
    pub flags: u64,
    pub name_max: u64,
}

/// The `i`-th big-endian `u64` of `s`.
pub open spec fn u64_at(s: Seq<u8>, i: int) -> u64 {
    be_u64(s.skip(8 * i)) as u64
}

/// Request of `hardlink@openssh.com`.
pub struct HardlinkExtension {
    pub oldpath: String,
    pub newpath: String,
}

/// Request of `fsync@openssh.com`.
pub struct FsyncExtension {
    pub handle: String,
}

/// Request of `statvfs@openssh.com`.
pub struct StatvfsExtension {
    pub path: String,
}

/// The error of a text too long for a length prefix.
fn too_long() -> (r: Error)
    ensures
        r matches Error::BadMessage(m) && m@ == "string too long"@,
{
    Error::BadMessage(owned("string too long"))
}

impl LimitsExtension {
    /// Parses the reply data: four big-endian `u64` (packet, read and
    /// write lengths, open handles); missing data is a malformed message.
    pub fn from_data(data: Vec<u8>) -> (r: Result<LimitsExtension, Error>)
        ensures
            data@.len() >= 32 ==> r == Ok::<LimitsExtension, Error>(
                LimitsExtension {
                    max_packet_len: u64_at(data@, 0),
                    max_read_len: u64_at(data@, 1),
                    max_write_len: u64_at(data@, 2),
                    max_open_handles: u64_at(data@, 3),
                },
            ),
            data@.len() < 32 ==> r matches Err(Error::BadMessage(_)),
    {
        let ghost d = data@;
        let mut b = bytes_from_vec(data);
        let max_packet_len = read_u64_field(&mut b)?;
        assert(bytes_contents(b) =~= d.skip(8));
        let max_read_len = read_u64_field(&mut b)?;
        assert(bytes_contents(b) =~= d.skip(16));
        let max_write_len = read_u64_field(&mut b)?;
        assert(bytes_contents(b) =~= d.skip(24));
        let max_open_handles = read_u64_field(&mut b)?;
        assert(d.skip(0) =~= d);
        Ok(LimitsExtension { max_packet_len, max_read_len, max_write_len, max_open_handles })
    }
}

impl Statvfs {
    /// Parses the reply data: eleven big-endian `u64` in the order of the
    /// fields; missing data is a malformed message.
    pub fn from_data(data: Vec<u8>) -> (r: Result<Statvfs, Error>)
        ensures
            data@.len() >= 88 ==> r == Ok::<Statvfs, Error>(
                Statvfs {
                    block_size: u64_at(data@, 0),
                    fragment_size: u64_at(data@, 1),
                    blocks: u64_at(data@, 2),
                    blocks_free: u64_at(data@, 3),
                    blocks_avail: u64_at(data@, 4),
                    inodes: u64_at(data@, 5),
                    inodes_free: u64_at(data@, 6),
                    inodes_avail: u64_at(data@, 7),
                    fs_id: u64_at(data@, 8),
                    flags: u64_at(data@, 9),
                    name_max: u64_at(data@, 10),
                },
            ),
            data@.len() < 88 ==> r matches Err(Error::BadMessage(_)),
    {
        let ghost d = data@;
        assert(d.skip(0) =~= d);
        let mut b = bytes_from_vec(data);
        let block_size = read_u64_field(&mut b)?;
        assert(bytes_contents(b) =~= d.skip(8));
        let fragment_size = read_u64_field(&mut b)?;
        assert(bytes_contents(b) =~= d.skip(16));
        let blocks = read_u64_field(&mut b)?;
        assert(bytes_contents(b) =~= d.skip(24));
        let blocks_free = read_u64_field(&mut b)?;
        assert(bytes_contents(b) =~= d.skip(32));
        let blocks_avail = read_u64_field(&mut b)?;
        assert(bytes_contents(b) =~= d.skip(40));
        let inodes = read_u64_field(&mut b)?;
        assert(bytes_contents(b) =~= d.skip(48));
        let inodes_free = read_u64_field(&mut b)?;
        assert(bytes_contents(b) =~= d.skip(56));
        let inodes_avail = read_u64_field(&mut b)?;
        assert(bytes_contents(b) =~= d.skip(64));
        let fs_id = read_u64_field(&mut b)?;
        assert(bytes_contents(b) =~= d.skip(72));
        let flags = read_u64_field(&mut b)?;
        assert(bytes_contents(b) =~= d.skip(80));
        let name_max = read_u64_field(&mut b)?;
        Ok(
            Statvfs {
                block_size,
                fragment_size,
                blocks,
                blocks_free,
                blocks_avail,
                inodes,
                inodes_free,
                inodes_avail,
                fs_id,
                flags,
                name_max,
            },
        )
    }
}

impl HardlinkExtension {
    /// The request payload: the old path, then the new path, each a
    /// length-prefixed UTF-8 string.
    pub fn data(&self) -> (r: Result<Vec<u8>, Error>)
        ensures
            encode_utf8(self.newpath@).len() <= u32::MAX
                && encode_utf8(self.oldpath@).len() <= u32::MAX ==> (r matches Ok(v)
                && v@ == encode_field(encode_utf8(self.oldpath@)) + encode_field(
                encode_utf8(self.newpath@),
            )),
            !(encode_utf8(self.newpath@).len() <= u32::MAX
                && encode_utf8(self.oldpath@).len() <= u32::MAX) ==> r is Err,
    {
        let old_bytes = self.oldpath.as_str().as_bytes();
        let new_bytes = self.newpath.as_str().as_bytes();
        if old_bytes.len() > 4294967295 || new_bytes.len() > 4294967295 {
            return Err(too_long());
        }
        let mut v: Vec<u8> = Vec::new();
        put_bytes(&mut v, old_bytes);
        put_bytes(&mut v, new_bytes);
        assert(v@ =~= encode_field(encode_utf8(self.oldpath@)) + encode_field(
            encode_utf8(self.newpath@),
        ));
        Ok(v)
    }
}

impl FsyncExtension {
    /// The request payload: the handle as a length-prefixed string.
    pub fn data(&self) -> (r: Result<Vec<u8>, Error>)
        ensures
            encode_utf8(self.handle@).len() <= u32::MAX ==> (r matches Ok(v) && v@
                == encode_field(encode_utf8(self.handle@))),
            encode_utf8(self.handle@).len() > u32::MAX ==> r is Err,
    {
        let bytes = self.handle.as_str().as_bytes();
        if bytes.len() > 4294967295 {
            return Err(too_long());
        }
        let mut v: Vec<u8> = Vec::new();
        put_bytes(&mut v, bytes);
        assert(v@ =~= encode_field(encode_utf8(self.handle@)));
        Ok(v)
    }
}

impl StatvfsExtension {
    /// The request payload: the path as a length-prefixed string.
    pub fn data(&self) -> (r: Result<Vec<u8>, Error>)
        ensures
            encode_utf8(self.path@).len() <= u32::MAX ==> (r matches Ok(v) && v@
                == encode_field(encode_utf8(self.path@))),
            encode_utf8(self.path@).len() > u32::MAX ==> r is Err,
    {
        let bytes = self.path.as_str().as_bytes();
        if bytes.len() > 4294967295 {
            return Err(too_long());
        }
        let mut v: Vec<u8> = Vec::new();
        put_bytes(&mut v, bytes);
        assert(v@ =~= encode_field(encode_utf8(self.path@)));
        Ok(v)
    }
}

} // verus!
