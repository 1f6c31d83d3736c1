//! Request-response bookkeeping of an SFTP session: request ids, the
//! count of open handles against the negotiated limits, validation and
//! interpretation of server replies, and the retry, throttling and
//! shutdown policy of the session.

use vstd::arithmetic::power2::pow2;
use vstd::prelude::*;
use vstd::string::StringExecFns;

use crate::client::error::{is_serv_u_message, status_error, Error};
use crate::extensions::LimitsExtension;
use crate::protocol::{Attrs, Data, Handle, Name, Packet, Status, StatusCode, Version};
use crate::text::{contains_seq, decimal, owned, push_decimal, str_contains};

verus! {

pub type SftpResult<T> = Result<T, Error>;

/// Limits negotiated through `limits@openssh.com`; `None` is unlimited.
#[derive(Debug, Clone, Copy)]
pub struct Limits {
    pub read_len: Option<u64>,
    pub write_len: Option<u64>,
    pub open_handles: Option<u64>,
}

impl Default for Limits {
    fn default() -> (r: Self)
        ensures
            r.read_len is None,
            r.write_len is None,
            r.open_handles is None,
    {
        Limits { read_len: None, write_len: None, open_handles: None }
    }
}

/// A limit as announced by the server: zero means there is none.
pub open spec fn announced_limit(v: u64) -> Option<u64> {
    if v > 0 {
        Some(v)
    } else {
        None
    }
}

impl vstd::std_specs::convert::FromSpecImpl<LimitsExtension> for Limits {
    open spec fn obeys_from_spec() -> bool {
        true
    }

    open spec fn from_spec(limits: LimitsExtension) -> Self {
        Limits {
            read_len: announced_limit(limits.max_read_len),
            write_len: announced_limit(limits.max_write_len),
            open_handles: announced_limit(limits.max_open_handles),
        }
    }
}

impl From<LimitsExtension> for Limits {
    fn from(limits: LimitsExtension) -> (r: Self) {
        Self {
            read_len: if limits.max_read_len > 0 {
                Some(limits.max_read_len)
            } else {
                None
            },
            write_len: if limits.max_write_len > 0 {
                Some(limits.max_write_len)
            } else {
                None
            },
            open_handles: if limits.max_open_handles > 0 {
                Some(limits.max_open_handles)
            } else {
                None
            },
        }
    }
}

/// Checks a reply against the negotiated version: a reply with a request
/// id before the version is known is unexpected, and a second version
/// reply is unexpected behavior.
pub fn validate_reply(id: Option<u32>, version: Option<u32>) -> (r: SftpResult<()>)
    ensures
        id is Some && version is None ==> r matches Err(Error::UnexpectedPacket),
        id is None && version is Some ==> (r matches Err(Error::UnexpectedBehavior(m)) && m@
            == "Duplicate version"@),
        (id is Some) == (version is Some) ==> r is Ok,
{
    if id.is_some() && version.is_none() {
        Err(Error::UnexpectedPacket)
    } else if id.is_none() && version.is_some() {
        Err(Error::UnexpectedBehavior(owned("Duplicate version")))
    } else {
        Ok(())
    }
}

/// Debug text of an optional request id ("Some(7)" or "None").
pub open spec fn request_id_text(id: Option<u32>) -> Seq<char> {
    match id {
        Some(v) => "Some("@ + decimal(v as nat) + ")"@,
        None => "None"@,
    }
}

/// The error of a reply that no request is waiting for.
pub fn unknown_recipient_error(id: Option<u32>) -> (r: Error)
    ensures
        r matches Error::UnexpectedBehavior(m) && m@ == "Packet "@ + request_id_text(id)
            + " for unknown recipient"@,
{
    let mut m = owned("Packet ");
    match id {
        Some(v) => {
            m.append("Some(");
            push_decimal(&mut m, v as u64);
            m.append(")");
        },
        None => {
            m.append("None");
        },
    }
    m.append(" for unknown recipient");
    Error::UnexpectedBehavior(m)
}

/// The reply to `open`/`opendir`: the handle, or the error a status
/// stands for.
pub open spec fn handle_reply(p: Packet) -> SftpResult<Handle> {
    match p {
        Packet::Handle(h) => Ok(h),
        Packet::Status(s) => Err(status_error(s)),
        _ => Err(Error::UnexpectedPacket),
    }
}

/// The reply to `read`: the data, or the error a status stands for.
pub open spec fn data_reply(p: Packet) -> SftpResult<Data> {
    match p {
        Packet::Data(d) => Ok(d),
        Packet::Status(s) => Err(status_error(s)),
        _ => Err(Error::UnexpectedPacket),
    }
}

/// The reply to `readdir`, `realpath`, `readlink`: the names, or the error
/// a status stands for.
pub open spec fn name_reply(p: Packet) -> SftpResult<Name> {
    match p {
        Packet::Name(n) => Ok(n),
        Packet::Status(s) => Err(status_error(s)),
        _ => Err(Error::UnexpectedPacket),
    }
}

/// The reply to `stat`, `lstat`, `fstat`: the attributes, or the error a
/// status stands for.
pub open spec fn attrs_reply(p: Packet) -> SftpResult<Attrs> {
    match p {
        Packet::Attrs(a) => Ok(a),
        Packet::Status(s) => Err(status_error(s)),
        _ => Err(Error::UnexpectedPacket),
    }
}

/// The reply to a request answered by a status alone: success for an `Ok`
/// status, the error any other status stands for.
pub open spec fn status_reply(p: Packet) -> SftpResult<Status> {
    match p {
        Packet::Status(s) => if s.status_code == StatusCode::Okay {
            Ok(s)
        } else {
            Err(status_error(s))
        },
        _ => Err(Error::UnexpectedPacket),
    }
}

/// The reply to an extension answered with data (`limits`, `statvfs`):
/// the data of an extended reply, a non-`Ok` status as it is (no Serv-U
/// classification), anything else unexpected.
pub open spec fn extended_data_reply(p: Packet) -> SftpResult<Seq<u8>> {
    match p {
        Packet::ExtendedReply(r) => Ok(r.data@),
        Packet::Status(s) => if s.status_code != StatusCode::Okay {
            Err(Error::Status(s))
        } else {
            Err(Error::UnexpectedPacket)
        },
        _ => Err(Error::UnexpectedPacket),
    }
}

/// Interprets the reply to `open`/`opendir`.
pub fn expect_handle(p: Packet) -> (r: SftpResult<Handle>)
    ensures
        r == handle_reply(p),
{
    match p {
        Packet::Handle(h) => Ok(h),
        Packet::Status(s) => Err(Error::from(s)),
        _ => Err(Error::UnexpectedPacket),
    }
}

/// Interprets the reply to `read`.
pub fn expect_data(p: Packet) -> (r: SftpResult<Data>)
    ensures
        r == data_reply(p),
{
    match p {
        Packet::Data(d) => Ok(d),
        Packet::Status(s) => Err(Error::from(s)),
        _ => Err(Error::UnexpectedPacket),
    }
}

/// Interprets the reply to `readdir`, `realpath`, `readlink`.
pub fn expect_name(p: Packet) -> (r: SftpResult<Name>)
    ensures
        r == name_reply(p),
{
    match p {
        Packet::Name(n) => Ok(n),
        Packet::Status(s) => Err(Error::from(s)),
        _ => Err(Error::UnexpectedPacket),
    }
}

/// Interprets the reply to `stat`, `lstat`, `fstat`.
pub fn expect_attrs(p: Packet) -> (r: SftpResult<Attrs>)
    ensures
        r == attrs_reply(p),
{
    match p {
        Packet::Attrs(a) => Ok(a),
        Packet::Status(s) => Err(Error::from(s)),
        _ => Err(Error::UnexpectedPacket),
    }
}

/// Interprets the reply to a request answered by a status alone.
pub fn expect_status(p: Packet) -> (r: SftpResult<Status>)
    ensures
        r == status_reply(p),
{
    match p {
        Packet::Status(s) => {
            if s.status_code == StatusCode::Okay {
                Ok(s)
            } else {
                Err(Error::from(s))
            }
        },
        _ => Err(Error::UnexpectedPacket),
    }
}

/// Interprets the reply to `init`: the server's version.
pub fn expect_version(p: Packet) -> (r: SftpResult<Version>)
    ensures
        p matches Packet::Version(v) ==> r == Ok::<Version, Error>(v),
        !(p is Version) ==> r matches Err(Error::UnexpectedPacket),
{
    match p {
        Packet::Version(v) => Ok(v),
        _ => Err(Error::UnexpectedPacket),
    }
}

/// Interprets the reply to an extension answered with data.
pub fn expect_extended_data(p: Packet) -> (r: SftpResult<Vec<u8>>)
    ensures
        match r {
            Ok(v) => extended_data_reply(p) == Ok::<Seq<u8>, Error>(v@),
            Err(e) => extended_data_reply(p) == Err::<Seq<u8>, Error>(e),
        },
{
    match p {
        Packet::ExtendedReply(r) => Ok(r.data),
        Packet::Status(s) => {
            if s.status_code != StatusCode::Okay {
                Err(Error::Status(s))
            } else {
                Err(Error::UnexpectedPacket)
            }
        },
        _ => Err(Error::UnexpectedPacket),
    }
}

/// Default time allowed for a reply, in seconds.
pub const DEFAULT_TIMEOUT_SECS: u64 = 10;

/// Default number of retries of a failed request.
pub const DEFAULT_MAX_RETRIES: u32 = 3;

/// Default delay before the first retry, in milliseconds.
pub const DEFAULT_RETRY_DELAY_MS: u64 = 100;

/// Delay between requests in Serv-U compatibility mode, in milliseconds.
pub const SERV_U_THROTTLE_MS: u64 = 10;

/// Concurrent handle limit in Serv-U compatibility mode.
pub const SERV_U_MAX_HANDLES: u64 = 10;

/// The abstract state of a session's bookkeeping.
pub struct SessionModel {
    /// Id the next request gets.
    pub next_req_id: u32,
    /// Handles opened and not yet closed.
    pub handles: u64,
    pub timeout_secs: u64,
    /// Limits announced by the server.
    pub limits: Limits,
    pub max_retries: u32,
    pub retry_delay_ms: u64,
    /// Least time between two requests, in milliseconds (0: none).
    pub request_throttle_ms: u64,
    /// Handle limit set on the client side.
    pub max_concurrent_handles: Option<u64>,
}

/// Bookkeeping of one SFTP session: request ids, open handles, limits,
/// timeout, retry and throttling settings.
pub struct SessionState {
    next_req_id: u32,
    handles: u64,
    timeout_secs: u64,
    limits: Limits,
    max_retries: u32,
    retry_delay_ms: u64,
    request_throttle_ms: u64,
    max_concurrent_handles: Option<u64>,
}

impl View for SessionState {
    type V = SessionModel;

    closed spec fn view(&self) -> SessionModel {
        SessionModel {
            next_req_id: self.next_req_id,
            handles: self.handles,
            timeout_secs: self.timeout_secs,
            limits: self.limits,
            max_retries: self.max_retries,
            retry_delay_ms: self.retry_delay_ms,
            request_throttle_ms: self.request_throttle_ms,
            max_concurrent_handles: self.max_concurrent_handles,
        }
    }
}

/// The smaller of two optional limits; an absent limit does not bound.
pub open spec fn min_limit(a: Option<u64>, b: Option<u64>) -> Option<u64> {
    match (a, b) {
        (Some(x), Some(y)) => Some(if x <= y { x } else { y }),
        (Some(x), None) => Some(x),
        (None, Some(y)) => Some(y),
        (None, None) => None,
    }
}

/// The handle limit in force: the smaller of the server's and the
/// client's.
pub open spec fn handle_limit(m: SessionModel) -> Option<u64> {
    min_limit(m.limits.open_handles, m.max_concurrent_handles)
}

/// No further handle may be opened.
pub open spec fn at_handle_limit(m: SessionModel) -> bool {
    handle_limit(m) matches Some(h) && m.handles >= h
}

/// The open-handle count after the reply to `open`/`opendir`: one more
/// when a handle came back (wrapping around).
pub open spec fn handles_after_open(handles: u64, reply: Packet) -> u64 {
    if reply is Handle {
        handles.wrapping_add(1)
    } else {
        handles
    }
}

/// The open-handle count after the reply to `close`: one fewer for an
/// `Ok` status, never below zero.
pub open spec fn handles_after_close(handles: u64, reply: Packet) -> u64 {
    if reply matches Packet::Status(s) && s.status_code == StatusCode::Okay && handles > 0 {
        (handles - 1) as u64
    } else {
        handles
    }
}

/// The failures worth repeating: timeouts, replies lost on the way
/// ("recv none message") and Serv-U compatibility failures.
pub open spec fn is_retryable_error(e: Error) -> bool {
    match e {
        Error::Timeout => true,
        Error::ServUCompatibility(_) => true,
        Error::UnexpectedBehavior(m) => contains_seq(m@, "recv none message"@),
        _ => false,
    }
}

/// Exponential backoff: `initial * 2^attempt` milliseconds, capped at
/// `u64::MAX`.
pub open spec fn backoff_delay(initial: u64, attempt: nat) -> u64 {
    if initial * pow2(attempt) > u64::MAX {
        u64::MAX
    } else {
        (initial * pow2(attempt)) as u64
    }
}

/// What to do after a failed attempt.
#[derive(Debug, Clone, Copy, PartialEq, Eq, Structural)]
pub enum RetryDecision {
    /// Try again after this many milliseconds.
    RetryAfter(u64),
    /// Report the failure.
    GiveUp,
}

/// What a graceful shutdown does next.
#[derive(Debug, Clone, Copy, PartialEq, Eq, Structural)]
pub enum ShutdownStep {
    /// Stop waiting; `true` when every request completed.
    Finished(bool),
    /// Wait for the active requests a while longer.
    Wait,
}

/// Whether `e` is a failure worth repeating.
pub fn is_retryable(e: &Error) -> (r: bool)
    ensures
        r == is_retryable_error(*e),
{
    match e {
        Error::Timeout => true,
        Error::ServUCompatibility(_) => true,
        Error::UnexpectedBehavior(m) => str_contains(m.as_str(), "recv none message"),
        _ => false,
    }
}

proof fn lemma_backoff_step(initial: u64, attempt: nat)
    ensures
        backoff_delay(initial, attempt + 1) == (if backoff_delay(initial, attempt) > u64::MAX
            / 2 {
            u64::MAX
        } else {
            (backoff_delay(initial, attempt) * 2) as u64
        }),
{
    vstd::arithmetic::power2::lemma_pow2_unfold(attempt + 1);
    let p = pow2(attempt);
    assert(initial * pow2(attempt + 1) == (initial * p) * 2) by (nonlinear_arith)
        requires
            pow2(attempt + 1) == 2 * p,
    ;
    assert(initial * p >= 0) by (nonlinear_arith);
}

proof fn lemma_backoff_saturated(initial: u64, attempt: nat, later: nat)
    requires
        attempt <= later,
        backoff_delay(initial, attempt) == u64::MAX,
    ensures
        backoff_delay(initial, later) == u64::MAX,
    decreases later - attempt,
{
    if attempt < later {
        lemma_backoff_step(initial, attempt);
        lemma_backoff_saturated(initial, attempt + 1, later);
    }
}

proof fn lemma_backoff_zero(attempt: nat)
    ensures
        backoff_delay(0, attempt) == 0,
{
    assert(0 * pow2(attempt) == 0);
}

/// Delay before the retry following attempt `attempt` (counted from 0).
pub fn backoff_delay_ms(initial: u64, attempt: u32) -> (d: u64)
    ensures
        d == backoff_delay(initial, attempt as nat),
{
    let mut d: u64 = initial;
    let mut i: u32 = 0;
    proof {
        vstd::arithmetic::power::lemma_pow0(2);
        assert(pow2(0) == 1);
        assert(initial * pow2(0) == initial);
    }
    while i < attempt && d != 0 && d != u64::MAX
        invariant
            i <= attempt,
            d == backoff_delay(initial, i as nat),
        decreases attempt - i,
    {
        proof {
            lemma_backoff_step(initial, i as nat);
        }
        if d > u64::MAX / 2 {
            d = u64::MAX;
        } else {
            d = d * 2;
        }
        i = i + 1;
    }
    proof {
        if i < attempt {
            if d == 0 {
                assert(initial == 0) by {
                    if initial > 0 {
                        vstd::arithmetic::power2::lemma_pow2_pos(i as nat);
                        assert(initial * pow2(i as nat) > 0) by (nonlinear_arith)
                            requires
                                initial > 0,
                                pow2(i as nat) > 0,
                        ;
                    }
                }
                lemma_backoff_zero(attempt as nat);
            } else {
                lemma_backoff_saturated(initial, i as nat, attempt as nat);
            }
        }
    }
    d
}

/// The next step of a graceful shutdown that has waited `elapsed_ms`
/// milliseconds of its `timeout_secs` seconds: finished once nothing is
/// active (successfully) or the time is up (unsuccessfully), otherwise
/// wait.
pub fn shutdown_step(active_requests: u32, elapsed_ms: u64, timeout_secs: u64) -> (s: ShutdownStep)
    ensures
        active_requests == 0 ==> s == ShutdownStep::Finished(true),
        active_requests > 0 && elapsed_ms >= timeout_secs * 1000 ==> s == ShutdownStep::Finished(
            false,
        ),
        active_requests > 0 && elapsed_ms < timeout_secs * 1000 ==> s == ShutdownStep::Wait,
{
    if active_requests == 0 {
        ShutdownStep::Finished(true)
    } else if elapsed_ms / 1000 >= timeout_secs {
        ShutdownStep::Finished(false)
    } else {
        ShutdownStep::Wait
    }
}

impl SessionState {
    /// A fresh session: ids start at 1, no handles, 10 s timeout, no
    /// limits, 3 retries from 100 ms, no throttling.
    pub fn new() -> (r: Self)
        ensures
            r@ == (SessionModel {
                next_req_id: 1,
                handles: 0,
                timeout_secs: DEFAULT_TIMEOUT_SECS,
                limits: Limits { read_len: None, write_len: None, open_handles: None },
                max_retries: DEFAULT_MAX_RETRIES,
                retry_delay_ms: DEFAULT_RETRY_DELAY_MS,
                request_throttle_ms: 0,
                max_concurrent_handles: None,
            }),
    {
        SessionState {
            next_req_id: 1,
            handles: 0,
            timeout_secs: DEFAULT_TIMEOUT_SECS,
            limits: Limits::default(),
            max_retries: DEFAULT_MAX_RETRIES,
            retry_delay_ms: DEFAULT_RETRY_DELAY_MS,
            request_throttle_ms: 0,
            max_concurrent_handles: None,
        }
    }

    /// Set the maximum response time in seconds.
    pub fn set_timeout(&mut self, secs: u64)
        ensures
            final(self)@ == (SessionModel { timeout_secs: secs, ..old(self)@ }),
    {
        self.timeout_secs = secs;
    }

    /// The maximum response time in seconds.
    pub fn timeout(&self) -> (r: u64)
        ensures
            r == self@.timeout_secs,
    {
        self.timeout_secs
    }

    /// Setting limits. For the `limits@openssh.com` extension
    pub fn set_limits(&mut self, limits: Limits)
        ensures
            final(self)@ == (SessionModel { limits: limits, ..old(self)@ }),
    {
        self.limits = limits;
    }

    /// The limits in force.
    pub fn limits(&self) -> (r: Limits)
        ensures
            r == self@.limits,
    {
        self.limits
    }

    /// Set how often a failed request is retried (0 disables retries).
    pub fn set_max_retries(&mut self, retries: u32)
        ensures
            final(self)@ == (SessionModel { max_retries: retries, ..old(self)@ }),
    {
        self.max_retries = retries;
    }

    /// Set the delay before the first retry, in milliseconds.
    pub fn set_retry_delay(&mut self, delay_ms: u64)
        ensures
            final(self)@ == (SessionModel { retry_delay_ms: delay_ms, ..old(self)@ }),
    {
        self.retry_delay_ms = delay_ms;
    }

    /// Set the least time between two requests, in milliseconds (0
    /// disables throttling).
    pub fn set_request_throttling(&mut self, delay_ms: u64)
        ensures
            final(self)@ == (SessionModel { request_throttle_ms: delay_ms, ..old(self)@ }),
    {
        self.request_throttle_ms = delay_ms;
    }

    /// Set the client-side limit on concurrently open handles.
    pub fn set_max_concurrent_handles(&mut self, max_handles: u64)
        ensures
            final(self)@ == (SessionModel {
                max_concurrent_handles: Some(max_handles),
                ..old(self)@
            }),
    {
        self.max_concurrent_handles = Some(max_handles);
    }

    /// Throttle requests by `SERV_U_THROTTLE_MS` for Serv-U servers.
    pub fn enable_serv_u_throttling(&mut self)
        ensures
            final(self)@ == (SessionModel { request_throttle_ms: SERV_U_THROTTLE_MS, ..old(self)@ }),
    {
        self.request_throttle_ms = SERV_U_THROTTLE_MS;
    }

    /// Limit open handles to `SERV_U_MAX_HANDLES` for Serv-U servers.
    pub fn enable_serv_u_connection_limits(&mut self)
        ensures
            final(self)@ == (SessionModel {
                max_concurrent_handles: Some(SERV_U_MAX_HANDLES),
                ..old(self)@
            }),
    {
        self.max_concurrent_handles = Some(SERV_U_MAX_HANDLES);
    }

    /// Takes the next request id; ids count up and wrap around.
    pub fn use_next_id(&mut self) -> (id: u32)
        ensures
            id == old(self)@.next_req_id,
            final(self)@ == (SessionModel {
                next_req_id: old(self)@.next_req_id.wrapping_add(1),
                ..old(self)@
            }),
    {
        let id = self.next_req_id;
        self.next_req_id = self.next_req_id.wrapping_add(1);
        id
    }

    /// Handles opened and not yet closed.
    pub fn open_handles(&self) -> (r: u64)
        ensures
            r == self@.handles,
    {
        self.handles
    }

    /// The handle limit in force: the smaller of the server's and the
    /// client's.
    pub fn handle_limit(&self) -> (r: Option<u64>)
        ensures
            r == handle_limit(self@),
    {
        match (self.limits.open_handles, self.max_concurrent_handles) {
            (Some(x), Some(y)) => Some(
                if x <= y {
                    x
                } else {
                    y
                },
            ),
            (Some(x), None) => Some(x),
            (None, Some(y)) => Some(y),
            (None, None) => None,
        }
    }

    /// Checks that a file may be opened.
    pub fn check_open(&self) -> (r: SftpResult<()>)
        ensures
            at_handle_limit(self@) ==> (r matches Err(Error::Limited(m)) && m@
                == "handle limit reached"@),
            !at_handle_limit(self@) ==> r is Ok,
    {
        match self.handle_limit() {
            Some(h) => if self.handles >= h {
                Err(Error::Limited(owned("handle limit reached")))
            } else {
                Ok(())
            },
            None => Ok(()),
        }
    }

    /// Checks that a directory may be opened.
    pub fn check_opendir(&self) -> (r: SftpResult<()>)
        ensures
            at_handle_limit(self@) ==> (r matches Err(Error::Limited(m)) && m@
                == "Handle limit reached"@),
            !at_handle_limit(self@) ==> r is Ok,
    {
        match self.handle_limit() {
            Some(h) => if self.handles >= h {
                Err(Error::Limited(owned("Handle limit reached")))
            } else {
                Ok(())
            },
            None => Ok(()),
        }
    }

    /// Checks that `len` bytes may be requested in one read.
    pub fn check_read(&self, len: u32) -> (r: SftpResult<()>)
        ensures
            (self@.limits.read_len matches Some(l) && len > l) ==> (r matches Err(
                Error::Limited(m),
            ) && m@ == "read limit reached"@),
            !(self@.limits.read_len matches Some(l) && len > l) ==> r is Ok,
    {
        match self.limits.read_len {
            Some(l) => if len as u64 > l {
                Err(Error::Limited(owned("read limit reached")))
            } else {
                Ok(())
            },
            None => Ok(()),
        }
    }

    /// Checks that `len` bytes may be sent in one write.
    pub fn check_write(&self, len: usize) -> (r: SftpResult<()>)
        ensures
            (self@.limits.write_len matches Some(l) && len > l) ==> (r matches Err(
                Error::Limited(m),
            ) && m@ == "write limit reached"@),
            !(self@.limits.write_len matches Some(l) && len > l) ==> r is Ok,
    {
        match self.limits.write_len {
            Some(l) => if len as u64 > l {
                Err(Error::Limited(owned("write limit reached")))
            } else {
                Ok(())
            },
            None => Ok(()),
        }
    }

    /// Counts the handle a successful `open`/`opendir` reply returned.
    pub fn on_open_reply(&mut self, reply: &Packet)
        ensures
            final(self)@ == (SessionModel {
                handles: handles_after_open(old(self)@.handles, *reply),
                ..old(self)@
            }),
    {
        if let Packet::Handle(_) = reply {
            self.handles = self.handles.wrapping_add(1);
        }
    }

    /// Releases the handle a successful `close` reply freed; a count that
    /// is already zero stays zero.
    pub fn on_close_reply(&mut self, reply: &Packet)
        ensures
            final(self)@ == (SessionModel {
                handles: handles_after_close(old(self)@.handles, *reply),
                ..old(self)@
            }),
    {
        if let Packet::Status(status) = reply {
            if status.status_code == StatusCode::Okay && self.handles > 0 {
                self.handles = self.handles - 1;
            }
        }
    }

    /// Delay before retrying after attempt `attempt` (counted from 0).
    pub fn retry_delay_for(&self, attempt: u32) -> (d: u64)
        ensures
            d == backoff_delay(self@.retry_delay_ms, attempt as nat),
    {
        backoff_delay_ms(self.retry_delay_ms, attempt)
    }

    /// What to do after attempt `attempt` (counted from 0) failed with
    /// `e`: retry after the backoff delay while attempts remain and the
    /// failure is retryable, otherwise give up.
    pub fn retry_decision(&self, attempt: u32, e: &Error) -> (d: RetryDecision)
        ensures
            attempt < self@.max_retries && is_retryable_error(*e) ==> d
                == RetryDecision::RetryAfter(backoff_delay(self@.retry_delay_ms, attempt as nat)),
            !(attempt < self@.max_retries && is_retryable_error(*e)) ==> d
                == RetryDecision::GiveUp,
    {
        if attempt < self.max_retries && is_retryable(e) {
            RetryDecision::RetryAfter(self.retry_delay_for(attempt))
        } else {
            RetryDecision::GiveUp
        }
    }

    /// How long to wait before the next request when `elapsed_ms`
    /// milliseconds have passed since the previous one.
    pub fn throttle_wait_ms(&self, elapsed_ms: u64) -> (w: u64)
        ensures
            w == (if elapsed_ms < self@.request_throttle_ms {
                self@.request_throttle_ms - elapsed_ms
            } else {
                0
            }),
    {
        if elapsed_ms < self.request_throttle_ms {
            self.request_throttle_ms - elapsed_ms
        } else {
            0
        }
    }
}

/// The first retry waits the configured delay, and each further retry
/// waits twice as long as the one before, until the delay saturates at
/// `u64::MAX`.
pub proof fn backoff_doubles(initial: u64, attempt: nat)
    ensures
        backoff_delay(initial, 0) == initial,
        backoff_delay(initial, attempt) <= u64::MAX / 2 ==> backoff_delay(initial, attempt + 1)
            == 2 * backoff_delay(initial, attempt),
        backoff_delay(initial, attempt) <= backoff_delay(initial, attempt + 1),
{
    vstd::arithmetic::power::lemma_pow0(2);
    assert(pow2(0) == 1);
    assert(initial * pow2(0) == initial);
    lemma_backoff_step(initial, attempt);
}

/// Closing a handle that was just opened restores the open-handle count
/// (short of the counter wrapping around).
pub proof fn open_then_close_balances(handles: u64, opened: Handle, closed: Status)
    requires
        handles < u64::MAX,
        closed.status_code == StatusCode::Okay,
    ensures
        handles_after_close(handles_after_open(handles, Packet::Handle(opened)), Packet::Status(closed))
            == handles,
{
}

/// Failed opens and closes leave the open-handle count alone.
pub proof fn failures_keep_handle_count(handles: u64, failed: Status)
    requires
        failed.status_code != StatusCode::Okay,
    ensures
        handles_after_open(handles, Packet::Status(failed)) == handles,
        handles_after_close(handles, Packet::Status(failed)) == handles,
{
}

/// Consecutive requests get different ids.
pub proof fn consecutive_ids_differ(id: u32)
    ensures
        id.wrapping_add(1) != id,
{
}

/// A status reply never brings what a request asked for: to `open`,
/// `read`, `readdir`/`realpath`/`readlink` and `stat`/`lstat`/`fstat` it is
/// always the failure it reports, and to a request answered by a status
/// alone it is a failure unless the status is `Ok`.  The failure is a
/// Serv-U compatibility error carrying the message when the message is a
/// Serv-U phrase, the status itself otherwise.
pub proof fn status_reply_is_the_reported_failure(s: Status)
    ensures
        ({
            let failure = if is_serv_u_message(s.error_message@) {
                Error::ServUCompatibility(s.error_message)
            } else {
                Error::Status(s)
            };
            &&& attrs_reply(Packet::Status(s)) == Err::<Attrs, Error>(failure)
            &&& handle_reply(Packet::Status(s)) == Err::<Handle, Error>(failure)
            &&& data_reply(Packet::Status(s)) == Err::<Data, Error>(failure)
            &&& name_reply(Packet::Status(s)) == Err::<Name, Error>(failure)
            &&& s.status_code != StatusCode::Okay ==> status_reply(Packet::Status(s))
                == Err::<Status, Error>(failure)
            &&& s.status_code == StatusCode::Okay ==> status_reply(Packet::Status(s))
                == Ok::<Status, Error>(s)
        }),
{
}

/// Only transient failures are retried: a timeout, a Serv-U compatibility
/// failure and a lost reply ("recv none message").  A status the server
/// sent (no such file, permission denied, any other), an I/O failure and
/// every other failure are never retried, so the retry decision gives up
/// on them at once.
pub proof fn only_transient_failures_are_retried(e: Error)
    ensures
        is_retryable_error(e) ==> (e is Timeout || e is ServUCompatibility || (e matches Error::UnexpectedBehavior(m)
            && contains_seq(m@, "recv none message"@))),
        e is Timeout ==> is_retryable_error(e),
        e is ServUCompatibility ==> is_retryable_error(e),
        (e matches Error::UnexpectedBehavior(m) && contains_seq(m@, "recv none message"@))
            ==> is_retryable_error(e),
        e is Status ==> !is_retryable_error(e),
        e is IO ==> !is_retryable_error(e),
{
}

/// Each reply interpretation accepts exactly the message its request is
/// answered with, content unchanged, and reports any message of another
/// kind (other than a status) as an unexpected packet.  To an extension
/// request a failing status is passed on as it is and an `Ok` status, which
/// carries no data, is unexpected.
pub proof fn replies_are_read_by_kind(p: Packet)
    ensures
        p matches Packet::Handle(h) ==> handle_reply(p) == Ok::<Handle, Error>(h),
        p matches Packet::Data(d) ==> data_reply(p) == Ok::<Data, Error>(d),
        p matches Packet::Name(n) ==> name_reply(p) == Ok::<Name, Error>(n),
        p matches Packet::Attrs(a) ==> attrs_reply(p) == Ok::<Attrs, Error>(a),
        p matches Packet::ExtendedReply(x) ==> extended_data_reply(p) == Ok::<Seq<u8>, Error>(
            x.data@,
        ),
        !(p is Handle || p is Status) ==> handle_reply(p) == Err::<Handle, Error>(
            Error::UnexpectedPacket,
        ),
        !(p is Data || p is Status) ==> data_reply(p) == Err::<Data, Error>(
            Error::UnexpectedPacket,
        ),
        !(p is Name || p is Status) ==> name_reply(p) == Err::<Name, Error>(
            Error::UnexpectedPacket,
        ),
        !(p is Attrs || p is Status) ==> attrs_reply(p) == Err::<Attrs, Error>(
            Error::UnexpectedPacket,
        ),
        !(p is Status) ==> status_reply(p) == Err::<Status, Error>(Error::UnexpectedPacket),
        !(p is ExtendedReply || p is Status) ==> extended_data_reply(p) == Err::<Seq<u8>, Error>(
            Error::UnexpectedPacket,
        ),
        p matches Packet::Status(s) ==> (s.status_code == StatusCode::Okay ==> extended_data_reply(
            p,
        ) == Err::<Seq<u8>, Error>(Error::UnexpectedPacket)),
        p matches Packet::Status(s) ==> (s.status_code != StatusCode::Okay ==> extended_data_reply(
            p,
        ) == Err::<Seq<u8>, Error>(Error::Status(s))),
{
}

} // verus!
