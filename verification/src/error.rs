//! Errors of the SFTP core: stream I/O, malformed messages and failures
//! passed up from the client.

use vstd::prelude::*;
use vstd::string::StringExecFns;

use crate::buf::{try_get_counts, try_get_error_counts};
use crate::client;
use crate::text::{decimal, owned, push_decimal};

verus! {

#[verifier::external_type_specification]
#[verifier::external_body]
pub struct ExIoError(std::io::Error);

/// Core SFTP error.
#[derive(Debug, Clone)]
pub enum Error {
    IO(String),
    UnexpectedEof,
    BadMessage(String),
    Client(String),
    UnexpectedBehavior(String),
}

/// Display text of a core error.
pub open spec fn error_text(e: Error) -> Seq<char> {
    match e {
        Error::IO(m) => "I/O: "@ + m@,
        Error::UnexpectedEof => "Unexpected EOF on stream"@,
        Error::BadMessage(m) => "Bad message: "@ + m@,
        Error::Client(m) => "Client error. ("@ + m@ + ")"@,
        Error::UnexpectedBehavior(m) => "Unexpected behavior: "@ + m@,
    }
}

/// How an I/O failure is told apart when it becomes a core error.
#[derive(Debug, Clone, Copy, PartialEq, Eq, Structural)]
pub enum IoFailureKind {
    /// `io::ErrorKind::UnexpectedEof`
    UnexpectedEof,
    /// `io::ErrorKind::Other`
    Other,
    /// any other kind
    Different,
}

/// `e` is the core error of an I/O failure of the given kind, inner
/// message and kind description: the end of the stream (also an `Other`
/// failure whose message is exactly "EOF") is `UnexpectedEof`, anything
/// else is `IO` with the kind's description.
pub open spec fn is_io_failure_error(
    e: Error,
    kind: IoFailureKind,
    inner_message: Seq<char>,
    kind_text: Seq<char>,
) -> bool {
    if kind == IoFailureKind::UnexpectedEof || (kind == IoFailureKind::Other && inner_message
        == "EOF"@) {
        e is UnexpectedEof
    } else {
        e matches Error::IO(m) && m@ == kind_text
    }
}

/// Message of a buffer underflow.
pub open spec fn underflow_message(available: nat, requested: nat) -> Seq<char> {
    "only "@ + decimal(available) + " bytes remaining, but "@ + decimal(requested) + " requested"@
}

/// The kind of an I/O failure, sorted into the three kinds the core error
/// distinguishes.
pub uninterp spec fn io_kind_of(err: std::io::Error) -> IoFailureKind;

/// The description `Display` gives of an I/O failure's kind.
pub uninterp spec fn io_kind_text_of(err: std::io::Error) -> Seq<char>;

/// The display text of the error an I/O failure wraps, or the empty text
/// when it wraps none.
pub uninterp spec fn io_inner_text_of(err: std::io::Error) -> Seq<char>;

/// Wrapper of `std::io::Error::kind`, sorted into the three kinds the core
/// error distinguishes.
#[verifier::external_body]
fn io_error_kind(err: &std::io::Error) -> (r: IoFailureKind)
    ensures
        r == io_kind_of(*err),
{
    match err.kind() {
        std::io::ErrorKind::UnexpectedEof => IoFailureKind::UnexpectedEof,
        std::io::ErrorKind::Other => IoFailureKind::Other,
        _ => IoFailureKind::Different,
    }
}

/// Wrapper of `Display` for `std::io::ErrorKind`: the description of the
/// failure's kind.  The description itself is std's and is named, not
/// spelled out.
#[verifier::external_body]
fn io_error_kind_text(err: &std::io::Error) -> (r: String)
    ensures
        r@ == io_kind_text_of(*err),
{
    err.kind().to_string()
}

/// Wrapper of `std::io::Error::into_inner`: the display text of the
/// wrapped error, or the empty string when there is none.  The text is
/// that of the wrapped error's own `Display` and is named, not spelled out.
#[verifier::external_body]
fn io_error_inner_text(err: std::io::Error) -> (r: String)
    ensures
        r@ == io_inner_text_of(err),
{
    err.into_inner().map_or(String::new(), |m| format!("{m}"))
}

impl Error {
    /// Display text of the error.
    pub fn to_string(&self) -> (r: String)
        ensures
            r@ == error_text(*self),
    {
        match self {
            Error::IO(m) => {
                let mut r = owned("I/O: ");
                r.append(m.as_str());
                r
            },
            Error::UnexpectedEof => owned("Unexpected EOF on stream"),
            Error::BadMessage(m) => {
                let mut r = owned("Bad message: ");
                r.append(m.as_str());
                r
            },
            Error::Client(m) => {
                let mut r = owned("Client error. (");
                r.append(m.as_str());
                r.append(")");
                r
            },
            Error::UnexpectedBehavior(m) => {
                let mut r = owned("Unexpected behavior: ");
                r.append(m.as_str());
                r
            },
        }
    }

    /// The core error of an I/O failure, given its kind, the text of the
    /// wrapped error and the description of the kind.
    pub fn from_io_parts(kind: IoFailureKind, inner_message: String, kind_text: String) -> (r:
        Error)
        ensures
            is_io_failure_error(r, kind, inner_message@, kind_text@),
    {
        let eof = owned("EOF");
        if kind == IoFailureKind::UnexpectedEof || (kind == IoFailureKind::Other
            && inner_message == eof) {
            Error::UnexpectedEof
        } else {
            Error::IO(kind_text)
        }
    }

    /// Converts an I/O failure of the stream into a core error.
    pub fn from_io_error(err: std::io::Error) -> (r: Error)
        ensures
            is_io_failure_error(r, io_kind_of(err), io_inner_text_of(err), io_kind_text_of(err)),
    {
        let kind = io_error_kind(&err);
        let kind_text = io_error_kind_text(&err);
        let inner = io_error_inner_text(err);
        Self::from_io_parts(kind, inner, kind_text)
    }

    /// A buffer ran out: `available` bytes were left, `requested` were needed.
    pub fn buffer_underflow(available: usize, requested: usize) -> (r: Error)
        ensures
            r matches Error::BadMessage(m) && m@ == underflow_message(
                available as nat,
                requested as nat,
            ),
    {
        let mut m = owned("only ");
        push_decimal(&mut m, available as u64);
        m.append(" bytes remaining, but ");
        push_decimal(&mut m, requested as u64);
        m.append(" requested");
        Error::BadMessage(m)
    }

    /// Converts a buffer underflow reported by the `bytes` crate.
    pub fn from_try_get(err: bytes::TryGetError) -> (r: Error)
        ensures
            r matches Error::BadMessage(m) && m@ == underflow_message(
                try_get_counts(err).1 as nat,
                try_get_counts(err).0 as nat,
            ),
    {
        let (requested, available) = try_get_error_counts(&err);
        Self::buffer_underflow(available, requested)
    }
}

/// Strings are not comparable by value in specifications, so the result
/// of this conversion is stated by `from`'s own `ensures` rather than
/// through `from_spec`.
impl vstd::std_specs::convert::FromSpecImpl<std::io::Error> for Error {
    open spec fn obeys_from_spec() -> bool {
        false
    }

    open spec fn from_spec(err: std::io::Error) -> Self {
        choose|r: Error|
            is_io_failure_error(r, io_kind_of(err), io_inner_text_of(err), io_kind_text_of(err))
    }
}

impl From<std::io::Error> for Error {
    /// An I/O failure of the stream as a core error.
    fn from(err: std::io::Error) -> (r: Self)
        ensures
            is_io_failure_error(r, io_kind_of(err), io_inner_text_of(err), io_kind_text_of(err)),
    {
        Error::from_io_error(err)
    }
}

/// Strings are not comparable by value in specifications, so the result
/// of this conversion is stated by `from`'s own `ensures` rather than
/// through `from_spec`.
impl vstd::std_specs::convert::FromSpecImpl<bytes::TryGetError> for Error {
    open spec fn obeys_from_spec() -> bool {
        false
    }

    open spec fn from_spec(err: bytes::TryGetError) -> Self {
        Error::BadMessage(
            choose|m: String|
                m@ == underflow_message(
                    try_get_counts(err).1 as nat,
                    try_get_counts(err).0 as nat,
                ),
        )
    }
}

impl From<bytes::TryGetError> for Error {
    /// A buffer underflow reported by the `bytes` crate.
    fn from(err: bytes::TryGetError) -> (r: Self)
        ensures
            r matches Error::BadMessage(m) && m@ == underflow_message(
                try_get_counts(err).1 as nat,
                try_get_counts(err).0 as nat,
            ),
    {
        Error::from_try_get(err)
    }
}

/// Strings are not comparable by value in specifications, so the result
/// of this conversion is stated by `from`'s own `ensures` (by the text of
/// the payload) rather than through `from_spec`.
impl vstd::std_specs::convert::FromSpecImpl<client::error::Error> for Error {
    open spec fn obeys_from_spec() -> bool {
        false
    }

    open spec fn from_spec(e: client::error::Error) -> Self {
        Error::Client(choose|s: String| s@ == client::error::error_text(e))
    }
}

impl From<client::error::Error> for Error {
    /// A client failure reported through the core: its display text
    /// wrapped in `Client`.
    fn from(error: client::error::Error) -> (r: Self)
        ensures
            r matches Error::Client(m) && m@ == client::error::error_text(error),
    {
        Error::Client(error.to_string())
    }
}

} // verus!
