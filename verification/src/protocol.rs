//! SFTP version 3 message types read by the client logic: status
//! codes, status replies and the other server responses.

use vstd::prelude::*;

use crate::text::owned;

verus! {

/// Result code carried by an `SSH_FXP_STATUS` reply.  The variants are
/// declared in protocol order, so `code as u32` is the wire value.
#[derive(Debug, Clone, Copy, PartialEq, Eq, Structural)]
pub enum StatusCode {
    /// `SSH_FX_OK`: the request succeeded.
    Okay,
    /// `SSH_FX_EOF`: end of file, or no more directory entries.
    Eof,
    /// `SSH_FX_NO_SUCH_FILE`
    NoSuchFile,
    /// `SSH_FX_PERMISSION_DENIED`
    PermissionDenied,
    /// `SSH_FX_FAILURE`
    Failure,
    /// `SSH_FX_BAD_MESSAGE`
    BadMessage,
    /// `SSH_FX_NO_CONNECTION`
    NoConnection,
    /// `SSH_FX_CONNECTION_LOST`
    ConnectionLost,
    /// `SSH_FX_OP_UNSUPPORTED`
    OpUnsupported,
}

/// Human-readable text of a status code.
pub open spec fn status_code_text(code: StatusCode) -> Seq<char> {
    match code {
        StatusCode::Okay => "Ok"@,
        StatusCode::Eof => "Eof"@,
        StatusCode::NoSuchFile => "No such file"@,
        StatusCode::PermissionDenied => "Permission denied"@,
        StatusCode::Failure => "Failure"@,
        StatusCode::BadMessage => "Bad message"@,
        StatusCode::NoConnection => "No connection"@,
        StatusCode::ConnectionLost => "Connection lost"@,
        StatusCode::OpUnsupported => "Operation unsupported"@,
    }
}

impl StatusCode {
    /// Human-readable text of the code.
    pub fn text(&self) -> (r: String)
        ensures
            r@ == status_code_text(*self),
    {
        match self {
            StatusCode::Okay => owned("Ok"),
            StatusCode::Eof => owned("Eof"),
            StatusCode::NoSuchFile => owned("No such file"),
            StatusCode::PermissionDenied => owned("Permission denied"),
            StatusCode::Failure => owned("Failure"),
            StatusCode::BadMessage => owned("Bad message"),
            StatusCode::NoConnection => owned("No connection"),
            StatusCode::ConnectionLost => owned("Connection lost"),
            StatusCode::OpUnsupported => owned("Operation unsupported"),
        }
    }
}

/// `SSH_FXP_STATUS`: the outcome of a request.
#[derive(Debug, Clone)]
pub struct Status {
    pub id: u32,
    pub status_code: StatusCode,
    pub error_message: String,
    pub language_tag: String,
}

/// `SSH_FXP_DATA`: bytes read from a file.
#[derive(Debug, Clone)]
pub struct Data {
    pub id: u32,
    pub data: Vec<u8>,
}

/// `SSH_FXP_HANDLE`: an opened file or directory handle.
#[derive(Debug, Clone)]
pub struct Handle {
    pub id: u32,
    pub handle: String,
}

/// File attributes; an absent field was not sent by the server.
#[derive(Debug, Clone, Copy, Default)]
pub struct FileAttributes {
    pub size: Option<u64>,
    pub uid: Option<u32>,
    pub gid: Option<u32>,
    pub permissions: Option<u32>,
    pub atime: Option<u32>,
    pub mtime: Option<u32>,
}

/// One entry of an `SSH_FXP_NAME` reply.
#[derive(Debug, Clone)]
pub struct File {
    pub filename: String,
    pub longname: String,
    pub attrs: FileAttributes,
}

/// `SSH_FXP_NAME`: a list of names (directory entries or a resolved path).
#[derive(Debug, Clone)]
pub struct Name {
    pub id: u32,
    pub files: Vec<File>,
}

/// `SSH_FXP_ATTRS`: attributes of a path or handle.
#[derive(Debug, Clone)]
pub struct Attrs {
    pub id: u32,
    pub attrs: FileAttributes,
}

/// `SSH_FXP_VERSION`: the server's protocol version and extensions,
/// as (name, data) pairs in the order they were sent.
#[derive(Debug, Clone)]
pub struct Version {
    pub version: u32,
    pub extensions: Vec<(String, String)>,
}

/// `SSH_FXP_EXTENDED_REPLY`: the raw answer to an extended request.
#[derive(Debug, Clone)]
pub struct ExtendedReply {
    pub id: u32,
    pub data: Vec<u8>,
}

/// A message the server sends to the client.
#[derive(Debug, Clone)]
pub enum Packet {
    Version(Version),
    Status(Status),
    Handle(Handle),
    Data(Data),
    Name(Name),
    Attrs(Attrs),
    ExtendedReply(ExtendedReply),
}

/// The request a server message answers: the version reply answers the
/// initialisation (no id), every other reply the request with its id.
pub open spec fn recipient_of(p: Packet) -> Option<u32> {
    match p {
        Packet::Version(_) => None,
        Packet::Status(s) => Some(s.id),
        Packet::Handle(h) => Some(h.id),
        Packet::Data(d) => Some(d.id),
        Packet::Name(n) => Some(n.id),
        Packet::Attrs(a) => Some(a.id),
        Packet::ExtendedReply(e) => Some(e.id),
    }
}

impl Packet {
    /// The id of the request this message answers (`None` for the
    /// version reply).
    pub fn recipient(&self) -> (r: Option<u32>)
        ensures
            r == recipient_of(*self),
    {
        match self {
            Packet::Version(_) => None,
            Packet::Status(s) => Some(s.id),
            Packet::Handle(h) => Some(h.id),
            Packet::Data(d) => Some(d.id),
            Packet::Name(n) => Some(n.id),
            Packet::Attrs(a) => Some(a.id),
            Packet::ExtendedReply(e) => Some(e.id),
        }
    }
}

} // verus!
