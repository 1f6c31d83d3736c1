//! Errors reported by the SFTP client, and the classification of server
//! status replies into generic failures and SolarWinds Serv-U
//! compatibility failures.

use vstd::prelude::*;
use vstd::string::StringExecFns;

use crate::protocol::{status_code_text, Status};
use crate::text::{
    all_ascii, ascii_lower, ascii_upper, case_folded, contains_seq, lemma_ascii_case,
    lemma_ascii_join, lemma_contains_in_context, owned, str_contains, to_lowercase,
};

verus! {

#[verifier::external_type_specification]
#[verifier::external_body]
pub struct ExElapsed(tokio::time::error::Elapsed);

/// Wrapper of `Display` for `std::io::Error`.  Nothing is stated of the
/// text: for an OS failure std takes it from the C library, whose wording
/// differs between libraries and may follow the process's locale.
#[verifier::external_body]
fn io_error_text(err: &std::io::Error) -> String {
    err.to_string()
}

/// Enum for client errors
#[derive(Debug, Clone)]
pub enum Error {
    /// Contains an error status packet
    Status(Status),
    /// Any errors related to I/O
    IO(String),
    /// Time limit for receiving response packet exceeded
    Timeout,
    /// Occurs due to exceeding the limits set by the `limits@openssh.com` extension
    Limited(String),
    /// A failure whose message matches a known SolarWinds Serv-U pattern
    /// (buffer exhaustion, request flooding, connection resets).
    ServUCompatibility(String),
    /// Occurs when an unexpected packet is sent
    UnexpectedPacket,
    /// Occurs when unexpected server behavior differs from the protocol specification
    UnexpectedBehavior(String),
}

/// `msg` (compared case-insensitively) contains one of the known Serv-U
/// failure phrases.
pub open spec fn is_serv_u_message(msg: Seq<char>) -> bool {
    let l = case_folded(msg);
    ||| contains_seq(l, case_folded("Client has exceeded the server's internal buffers"@))
    ||| contains_seq(l, case_folded("too many simultaneous client requests"@))
    ||| contains_seq(l, case_folded("connection reset"@))
    ||| contains_seq(l, case_folded("non-RFC compliant SSH protocol version exchange"@))
    ||| contains_seq(l, case_folded("buffer overflow"@))
    ||| contains_seq(l, case_folded("internal buffer limit"@))
}

fn contains_folded(lower_message: &str, pattern: &str) -> (r: bool)
    ensures
        r == contains_seq(lower_message@, case_folded(pattern@)),
{
    let p = to_lowercase(pattern);
    str_contains(lower_message, p.as_str())
}

/// Detects SolarWinds Serv-U specific error patterns: buffer exhaustion
/// ("Client has exceeded the server's internal buffers", "buffer
/// overflow", "internal buffer limit"), request flooding ("too many
/// simultaneous client requests"), connection resets and non-RFC version
/// exchanges. The comparison ignores case.
pub fn is_serv_u_error(error_message: &str) -> (r: bool)
    ensures
        r == is_serv_u_message(error_message@),
{
    let lower = to_lowercase(error_message);
    let l = lower.as_str();
    contains_folded(l, "Client has exceeded the server's internal buffers")
        || contains_folded(l, "too many simultaneous client requests")
        || contains_folded(l, "connection reset")
        || contains_folded(l, "non-RFC compliant SSH protocol version exchange")
        || contains_folded(l, "buffer overflow")
        || contains_folded(l, "internal buffer limit")
}

/// The error a status reply becomes: a Serv-U compatibility error when its
/// message matches a Serv-U pattern, otherwise the status itself.
pub open spec fn status_error(status: Status) -> Error {
    if is_serv_u_message(status.error_message@) {
        Error::ServUCompatibility(status.error_message)
    } else {
        Error::Status(status)
    }
}

impl vstd::std_specs::convert::FromSpecImpl<Status> for Error {
    open spec fn obeys_from_spec() -> bool {
        true
    }

    open spec fn from_spec(status: Status) -> Self {
        status_error(status)
    }
}

impl From<Status> for Error {
    fn from(status: Status) -> (r: Self) {
        if is_serv_u_error(status.error_message.as_str()) {
            Error::ServUCompatibility(status.error_message.clone())
        } else {
            Error::Status(status)
        }
    }
}

/// Display text of a client error.
pub open spec fn error_text(e: Error) -> Seq<char> {
    match e {
        Error::Status(s) => status_code_text(s.status_code) + ": "@ + s.error_message@,
        Error::IO(m) => "I/O: "@ + m@,
        Error::Timeout => "Timeout"@,
        Error::Limited(m) => "Limit exceeded: "@ + m@,
        Error::ServUCompatibility(m) => "Serv-U compatibility error: "@ + m@,
        Error::UnexpectedPacket => "Unexpected packet"@,
        Error::UnexpectedBehavior(m) => m@,
    }
}

impl Error {
    /// Display text of the error.
    pub fn to_string(&self) -> (r: String)
        ensures
            r@ == error_text(*self),
    {
        match self {
            Error::Status(s) => {
                let mut r = s.status_code.text();
                r.append(": ");
                r.append(s.error_message.as_str());
                r
            },
            Error::IO(m) => {
                let mut r = owned("I/O: ");
                r.append(m.as_str());
                r
            },
            Error::Timeout => owned("Timeout"),
            Error::Limited(m) => {
                let mut r = owned("Limit exceeded: ");
                r.append(m.as_str());
                r
            },
            Error::ServUCompatibility(m) => {
                let mut r = owned("Serv-U compatibility error: ");
                r.append(m.as_str());
                r
            },
            Error::UnexpectedPacket => owned("Unexpected packet"),
            Error::UnexpectedBehavior(m) => m.clone(),
        }
    }
}

/// The category under which a failure is counted in the connection
/// metrics.
pub open spec fn category_of(e: Error) -> Seq<char> {
    match e {
        Error::Timeout => "timeout"@,
        Error::IO(_) => "io"@,
        _ => "protocol"@,
    }
}

impl Error {
    /// The metrics category of the failure: "timeout", "io" or
    /// "protocol".
    pub fn category(&self) -> (r: &'static str)
        ensures
            r@ == category_of(*self),
    {
        match self {
            Error::Timeout => "timeout",
            Error::IO(_) => "io",
            _ => "protocol",
        }
    }

    /// An I/O failure: `IO` with the failure's display text.
    pub fn from_io_error(err: std::io::Error) -> (r: Error)
        ensures
            r is IO,
    {
        Error::IO(io_error_text(&err))
    }
}

/// The text of an I/O failure is not a function of the failure alone, so
/// this conversion is stated by `from`'s own `ensures` (the variant only)
/// rather than through `from_spec`.
impl vstd::std_specs::convert::FromSpecImpl<std::io::Error> for Error {
    open spec fn obeys_from_spec() -> bool {
        false
    }

    open spec fn from_spec(err: std::io::Error) -> Self {
        Error::IO(vstd::pervasive::arbitrary())
    }
}

impl From<std::io::Error> for Error {
    /// An I/O failure: `IO` with the failure's display text.
    fn from(err: std::io::Error) -> (r: Self)
        ensures
            r is IO,
    {
        Error::from_io_error(err)
    }
}

impl vstd::std_specs::convert::FromSpecImpl<tokio::time::error::Elapsed> for Error {
    open spec fn obeys_from_spec() -> bool {
        true
    }

    open spec fn from_spec(elapsed: tokio::time::error::Elapsed) -> Self {
        Error::Timeout
    }
}

impl From<tokio::time::error::Elapsed> for Error {
    /// A response that did not arrive in time.
    fn from(elapsed: tokio::time::error::Elapsed) -> (r: Self) {
        Error::Timeout
    }
}

/// Strings are not comparable by value in specifications, so the result
/// of this conversion is stated by `from`'s own `ensures` (by the text of
/// the payload) rather than through `from_spec`.
impl vstd::std_specs::convert::FromSpecImpl<crate::error::Error> for Error {
    open spec fn obeys_from_spec() -> bool {
        false
    }

    open spec fn from_spec(e: crate::error::Error) -> Self {
        Error::UnexpectedBehavior(choose|s: String| s@ == crate::error::error_text(e))
    }
}

impl From<crate::error::Error> for Error {
    /// A core failure seen by the client: its display text as
    /// `UnexpectedBehavior`.
    fn from(e: crate::error::Error) -> (r: Self)
        ensures
            r matches Error::UnexpectedBehavior(m) && m@ == crate::error::error_text(e),
    {
        Error::UnexpectedBehavior(e.to_string())
    }
}

} // verus!

verus! {

/// Serv-U detection ignores case: two messages that lower-case alike are
/// classified alike.
pub proof fn serv_u_detection_ignores_case(a: Seq<char>, b: Seq<char>)
    requires
        case_folded(a) == case_folded(b),
    ensures
        is_serv_u_message(a) == is_serv_u_message(b),
{
}

/// On ASCII text, upper- or lower-casing a message never changes whether
/// it is a Serv-U failure.
pub proof fn serv_u_detection_ignores_ascii_case(msg: Seq<char>)
    requires
        all_ascii(msg),
    ensures
        is_serv_u_message(ascii_upper(msg)) == is_serv_u_message(msg),
        is_serv_u_message(ascii_lower(msg)) == is_serv_u_message(msg),
{
    lemma_ascii_case(msg);
}

/// On ASCII text, a Serv-U phrase is found wherever it stands: a message
/// detected as a Serv-U failure stays detected with any ASCII text before
/// and after it.
pub proof fn serv_u_detection_in_context(before: Seq<char>, msg: Seq<char>, after: Seq<char>)
    requires
        all_ascii(before),
        all_ascii(msg),
        all_ascii(after),
        is_serv_u_message(msg),
    ensures
        is_serv_u_message(before + msg + after),
{
    lemma_ascii_join(before, msg);
    lemma_ascii_join(before + msg, after);
    let l = ascii_lower(msg);
    assert(case_folded(before + msg + after) == ascii_lower(before) + l + ascii_lower(after));
    let pats = seq![
        case_folded("Client has exceeded the server's internal buffers"@),
        case_folded("too many simultaneous client requests"@),
        case_folded("connection reset"@),
        case_folded("non-RFC compliant SSH protocol version exchange"@),
        case_folded("buffer overflow"@),
        case_folded("internal buffer limit"@),
    ];
    assert forall|k: int| 0 <= k < 6 && contains_seq(l, #[trigger] pats[k]) implies contains_seq(
        ascii_lower(before) + l + ascii_lower(after),
        pats[k],
    ) by {
        lemma_contains_in_context(l, pats[k], ascii_lower(before), ascii_lower(after));
    }
    assert(contains_seq(l, pats[0]) || contains_seq(l, pats[1]) || contains_seq(l, pats[2])
        || contains_seq(l, pats[3]) || contains_seq(l, pats[4]) || contains_seq(l, pats[5]));
}

/// A status reply becomes either a Serv-U compatibility error carrying
/// the status message unchanged (exactly when the message matches a
/// Serv-U pattern) or the status error itself.
pub proof fn status_conversion_keeps_message(s: Status)
    ensures
        is_serv_u_message(s.error_message@) ==> status_error(s) == Error::ServUCompatibility(
            s.error_message,
        ),
        !is_serv_u_message(s.error_message@) ==> status_error(s) == Error::Status(s),
{
}

} // verus!
