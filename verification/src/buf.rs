//! Reading length-prefixed fields out of a received message buffer.

use vstd::prelude::*;
use vstd::string::StringExecFns;
use vstd::utf8::{decode_utf8, valid_utf8};

use crate::error::{underflow_message, Error};
use crate::text::{decimal, owned, push_decimal};

verus! {

#[verifier::external_type_specification]
#[verifier::external_body]
pub struct ExBytes(bytes::Bytes);

#[verifier::external_type_specification]
#[verifier::external_body]
pub struct ExTryGetError(bytes::TryGetError);

/// The bytes a `bytes::Bytes` buffer still holds, first unread byte first.
pub uninterp spec fn bytes_contents(b: bytes::Bytes) -> Seq<u8>;

/// The text `String::from_utf8_lossy` makes of a byte sequence.
pub uninterp spec fn utf8_lossy(b: Seq<u8>) -> Seq<char>;

/// Largest length a single field may announce (1 MiB).
pub const MAX_FIELD_SIZE: usize = 1048576;

/// The big-endian value of the first four bytes of `s`.
pub open spec fn be_u32(s: Seq<u8>) -> int {
    s[0] as int * 16777216 + s[1] as int * 65536 + s[2] as int * 256 + s[3] as int
}

/// The big-endian value of the first eight bytes of `s`.
pub open spec fn be_u64(s: Seq<u8>) -> int {
    be_u32(s) * 4294967296 + be_u32(s.skip(4))
}

/// Message of a field announcing more than `MAX_FIELD_SIZE` bytes.
pub open spec fn oversize_message(len: nat) -> Seq<char> {
    "Field size "@ + decimal(len) + " exceeds maximum allowed size of "@ + decimal(
        MAX_FIELD_SIZE as nat,
    )
}

/// Message of a field announcing more bytes than the buffer holds.
pub open spec fn short_field_message(need: nat, have: nat) -> Seq<char> {
    "Insufficient bytes: need "@ + decimal(need) + ", have "@ + decimal(have)
}

/// The outcome of reading one length-prefixed field from a buffer whose
/// contents were `s`, resulting in `r` and leaving contents `rest`: the
/// field's bytes when the prefix and its body are there and the length
/// is at most `MAX_FIELD_SIZE`, an error otherwise.
pub open spec fn field_read(s: Seq<u8>, r: Result<Seq<u8>, Error>, rest: Seq<u8>) -> bool {
    if s.len() < 4 {
        &&& r matches Err(Error::UnexpectedBehavior(m)) && m@ == try_get_message(4, s.len())
        &&& rest == s
    } else {
        let len = be_u32(s);
        &&& rest == (if len <= MAX_FIELD_SIZE && 4 + len <= s.len() {
            s.skip(4 + len)
        } else {
            s.skip(4)
        })
        &&& if len > MAX_FIELD_SIZE {
            r matches Err(Error::BadMessage(m)) && m@ == oversize_message(len as nat)
        } else if s.len() - 4 < len {
            r matches Err(Error::BadMessage(m)) && m@ == short_field_message(
                len as nat,
                (s.len() - 4) as nat,
            )
        } else {
            r == Ok::<Seq<u8>, Error>(s.subrange(4, 4 + len))
        }
    }
}

/// The public fields `requested` and `available` of a `TryGetError`,
/// in that order.
pub uninterp spec fn try_get_counts(e: bytes::TryGetError) -> (usize, usize);

/// The text `Display` gives a `TryGetError` with the given counts.
pub open spec fn try_get_message(requested: nat, available: nat) -> Seq<char> {
    "Not enough bytes remaining in buffer to read value (requested "@ + decimal(requested)
        + " but only "@ + decimal(available) + " available)"@
}

/// Wrapper of `TryGetError`'s public fields `requested` and
/// `available`, in that order.
#[verifier::external_body]
pub(crate) fn try_get_error_counts(e: &bytes::TryGetError) -> (r: (usize, usize))
    ensures
        r == try_get_counts(*e),
{
    (e.requested, e.available)
}

/// Wrapper of `Display` for `TryGetError`: "Not enough bytes remaining in
/// buffer to read value (requested R but only A available)".
#[verifier::external_body]
fn try_get_error_text(e: &bytes::TryGetError) -> (r: String)
    ensures
        r@ == try_get_message(try_get_counts(*e).0 as nat, try_get_counts(*e).1 as nat),
{
    e.to_string()
}

/// Wrapper of `Buf::remaining` for `Bytes`: the number of unread bytes.
#[verifier::external_body]
fn remaining(b: &bytes::Bytes) -> (n: usize)
    ensures
        n == bytes_contents(*b).len(),
{
    bytes::Buf::remaining(b)
}

/// Wrapper of `Buf::try_get_u32` for `Bytes`: reads a big-endian `u32`
/// and advances by four bytes, or fails without advancing when fewer than
/// four bytes remain (the error requests four bytes and reports those
/// that remain).
#[verifier::external_body]
fn try_get_u32(b: &mut bytes::Bytes) -> (r: Result<u32, bytes::TryGetError>)
    ensures
        bytes_contents(*old(b)).len() >= 4 ==> (r matches Ok(v) && v == be_u32(
            bytes_contents(*old(b)),
        ) && bytes_contents(*final(b)) == bytes_contents(*old(b)).skip(4)),
        bytes_contents(*old(b)).len() < 4 ==> (r matches Err(e) && try_get_counts(e) == (
            4usize,
            bytes_contents(*old(b)).len() as usize,
        ) && bytes_contents(*final(b)) == bytes_contents(*old(b))),
{
    bytes::Buf::try_get_u32(b)
}

/// Wrapper of `Buf::try_get_u64` for `Bytes`: reads a big-endian `u64`
/// and advances by eight bytes, or fails without advancing when fewer than
/// eight bytes remain (the error requests eight bytes and reports those
/// that remain).
#[verifier::external_body]
fn try_get_u64(b: &mut bytes::Bytes) -> (r: Result<u64, bytes::TryGetError>)
    ensures
        bytes_contents(*old(b)).len() >= 8 ==> (r matches Ok(v) && v == be_u64(
            bytes_contents(*old(b)),
        ) && bytes_contents(*final(b)) == bytes_contents(*old(b)).skip(8)),
        bytes_contents(*old(b)).len() < 8 ==> (r matches Err(e) && try_get_counts(e) == (
            8usize,
            bytes_contents(*old(b)).len() as usize,
        ) && bytes_contents(*final(b)) == bytes_contents(*old(b))),
{
    bytes::Buf::try_get_u64(b)
}

/// Wrapper of `Bytes::from(Vec<u8>)`: a buffer holding the vector's bytes.
#[verifier::external_body]
pub(crate) fn bytes_from_vec(v: Vec<u8>) -> (r: bytes::Bytes)
    ensures
        bytes_contents(r) == v@,
{
    bytes::Bytes::from(v)
}

/// Reads the big-endian `u64` fields of an extension reply one after the
/// other; a missing field is a malformed message.
pub fn read_u64_field(b: &mut bytes::Bytes) -> (r: Result<u64, Error>)
    ensures
        bytes_contents(*old(b)).len() >= 8 ==> (r matches Ok(v) && v == be_u64(
            bytes_contents(*old(b)),
        ) && bytes_contents(*final(b)) == bytes_contents(*old(b)).skip(8)),
        bytes_contents(*old(b)).len() < 8 ==> (r matches Err(Error::BadMessage(m)) && m@
            == underflow_message(bytes_contents(*old(b)).len(), 8)
            && bytes_contents(*final(b)) == bytes_contents(*old(b))),
{
    match try_get_u64(b) {
        Ok(v) => Ok(v),
        Err(e) => Err(Error::from_try_get(e)),
    }
}

/// Wrapper of `Buf::copy_to_bytes` for `Bytes`: splits off the next `len`
/// bytes.
#[verifier::external_body]
fn copy_to_bytes(b: &mut bytes::Bytes, len: usize) -> (r: bytes::Bytes)
    requires
        len <= bytes_contents(*old(b)).len(),
    ensures
        bytes_contents(r) == bytes_contents(*old(b)).take(len as int),
        bytes_contents(*final(b)) == bytes_contents(*old(b)).skip(len as int),
{
    bytes::Buf::copy_to_bytes(b, len)
}

/// Wrapper of `<[u8]>::to_vec` on the contents of a `Bytes`.
#[verifier::external_body]
fn bytes_to_vec(b: &bytes::Bytes) -> (r: Vec<u8>)
    ensures
        r@ == bytes_contents(*b),
{
    b.to_vec()
}

/// Wrapper of `String::from_utf8_lossy`: the text of the bytes, with
/// invalid sequences replaced by U+FFFD; valid UTF-8 decodes unchanged.
#[verifier::external_body]
fn from_utf8_lossy(b: &[u8]) -> (r: String)
    ensures
        r@ == utf8_lossy(b@),
        valid_utf8(b@) ==> r@ == decode_utf8(b@),
{
    String::from_utf8_lossy(b).into()
}

/// Reading of SFTP length-prefixed fields (a big-endian `u32` length
/// followed by that many bytes).
pub trait TryBuf {
    /// Reads one length-prefixed byte field.
    fn try_get_bytes(&mut self) -> Result<Vec<u8>, Error>;

    /// Reads one length-prefixed field as text.
    fn try_get_string(&mut self) -> Result<String, Error>;
}

impl TryBuf for bytes::Bytes {
    fn try_get_bytes(&mut self) -> (r: Result<Vec<u8>, Error>)
        ensures
            field_read(
                bytes_contents(*old(self)),
                match r {
                    Ok(v) => Ok(v@),
                    Err(e) => Err(e),
                },
                bytes_contents(*final(self)),
            ),
    {
        let len = match try_get_u32(self) {
            Ok(v) => v as usize,
            Err(e) => {
                return Err(Error::UnexpectedBehavior(try_get_error_text(&e)));
            },
        };
        if len > MAX_FIELD_SIZE {
            let mut m = owned("Field size ");
            push_decimal(&mut m, len as u64);
            m.append(" exceeds maximum allowed size of ");
            push_decimal(&mut m, MAX_FIELD_SIZE as u64);
            return Err(Error::BadMessage(m));
        }
        let have = remaining(self);
        if have < len {
            let mut m = owned("Insufficient bytes: need ");
            push_decimal(&mut m, len as u64);
            m.append(", have ");
            push_decimal(&mut m, have as u64);
            return Err(Error::BadMessage(m));
        }
        let ghost before = bytes_contents(*self);
        let field = copy_to_bytes(self, len);
        proof {
            assert(before.skip(len as int) =~= bytes_contents(*old(self)).skip(4 + len));
            assert(before.take(len as int) =~= bytes_contents(*old(self)).subrange(
                4,
                4 + len,
            ));
        }
        Ok(bytes_to_vec(&field))
    }

    fn try_get_string(&mut self) -> (r: Result<String, Error>)
        ensures
            field_read(
                bytes_contents(*old(self)),
                match r {
                    Ok(s) => Ok(bytes_contents(*old(self)).subrange(
                        4,
                        4 + be_u32(bytes_contents(*old(self))),
                    )),
                    Err(e) => Err(e),
                },
                bytes_contents(*final(self)),
            ),
            r matches Ok(s) ==> s@ == utf8_lossy(
                bytes_contents(*old(self)).subrange(4, 4 + be_u32(bytes_contents(*old(self)))),
            ),
    {
        let bytes = self.try_get_bytes()?;
        Ok(from_utf8_lossy(bytes.as_slice()))
    }
}

/// The four big-endian bytes of `n`.
pub open spec fn be_bytes(n: u32) -> Seq<u8> {
    seq![
        (n / 16777216) as u8,
        ((n / 65536) % 256) as u8,
        ((n / 256) % 256) as u8,
        (n % 256) as u8,
    ]
}

/// A field as it is sent: its length as four big-endian bytes, then its
/// bytes.
pub open spec fn encode_field(payload: Seq<u8>) -> Seq<u8> {
    be_bytes(payload.len() as u32) + payload
}

/// Reading a length-prefixed field back gives the bytes that were
/// written and leaves exactly what followed them, for every field of at
/// most `MAX_FIELD_SIZE` bytes.
pub proof fn field_roundtrip(payload: Seq<u8>, rest: Seq<u8>)
    requires
        payload.len() <= MAX_FIELD_SIZE,
    ensures
        field_read(
            encode_field(payload) + rest,
            Ok::<Seq<u8>, Error>(payload),
            rest,
        ),
{
    let n = payload.len() as u32;
    let s = encode_field(payload) + rest;
    assert(be_u32(s) == n) by (nonlinear_arith)
        requires
            s[0] == (n / 16777216) as u8,
            s[1] == ((n / 65536) % 256) as u8,
            s[2] == ((n / 256) % 256) as u8,
            s[3] == (n % 256) as u8,
            be_u32(s) == s[0] as int * 16777216 + s[1] as int * 65536 + s[2] as int * 256
                + s[3] as int,
    ;
    assert(s.skip(4 + n) =~= rest);
    assert(s.subrange(4, 4 + n) =~= payload);
}

/// Appends the four big-endian bytes of `n`.
pub fn put_u32(buf: &mut Vec<u8>, n: u32)
    ensures
        final(buf)@ == old(buf)@ + be_bytes(n),
{
    buf.push((n / 16777216) as u8);
    buf.push(((n / 65536) % 256) as u8);
    buf.push(((n / 256) % 256) as u8);
    buf.push((n % 256) as u8);
    assert(buf@ =~= old(buf)@ + be_bytes(n));
}

/// Appends a length-prefixed field holding `data`.
pub fn put_bytes(buf: &mut Vec<u8>, data: &[u8])
    requires
        data@.len() <= u32::MAX,
    ensures
        final(buf)@ == old(buf)@ + encode_field(data@),
{
    put_u32(buf, data.len() as u32);
    let ghost start = buf@;
    let mut i: usize = 0;
    while i < data.len()
        invariant
            i <= data@.len(),
            buf@ == start + data@.take(i as int),
        decreases data.len() - i,
    {
        assert(data@.take(i + 1) =~= data@.take(i as int).push(data@[i as int]));
        buf.push(data[i]);
        i = i + 1;
    }
    assert(data@.take(data@.len() as int) =~= data@);
    assert(buf@ =~= old(buf)@ + encode_field(data@));
}

} // verus!
