//! Device activation by a six-digit code: the session's data, the addresses
//! it asks, and what a response's status means.

use vstd::prelude::*;
use vstd::string::*;

use crate::text::{chars_of, find_from, has_prefix, position_of, trim_text, trimmed};

verus! {

/// The answer to a request for an activation code.
#[derive(Debug, Clone, PartialEq, Eq)]
pub struct ActivationResponse {
    /// Six-digit activation code.
    pub code: String,
    /// Challenge to verify with.
    pub challenge: String,
    /// Seconds for which the code is valid.
    pub expires_in: u64,
}

/// The answer of a successful verification.
#[derive(Debug, Clone, PartialEq, Eq)]
pub struct VerifyBoundResponse {
    pub status: String,
    pub user_id: String,
    pub device_name: String,
    pub proxy_url: String,
}

/// The answer of a verification that still waits for the user.
#[derive(Debug, Clone, PartialEq, Eq)]
pub struct VerifyPendingResponse {
    pub status: String,
    pub retry_after_ms: u64,
}

/// The answer of a verification.
#[derive(Debug, Clone, PartialEq, Eq)]
pub enum VerifyResponse {
    /// The device is bound to a user.
    Bound(VerifyBoundResponse),
    /// The user has not confirmed yet.
    Pending(VerifyPendingResponse),
}

/// Why an activation failed.
#[derive(Debug, Clone, PartialEq, Eq)]
pub enum ActivationError {
    /// The HTTP request failed.
    HttpError(String),
    /// The answer could not be parsed.
    ParseError(String),
    /// The server answered with an error status.
    ServerError(u16, String),
    /// The activation took too long.
    Timeout,
    /// The challenge does not match.
    InvalidChallenge,
    /// The activation code has expired.
    Expired,
}

/// What an `ActivationError` holds.
pub enum ActivationErrorView {
    HttpError(Seq<char>),
    ParseError(Seq<char>),
    ServerError(u16, Seq<char>),
    Timeout,
    InvalidChallenge,
    Expired,
}

impl View for ActivationError {
    type V = ActivationErrorView;

    open spec fn view(&self) -> ActivationErrorView {
        match *self {
            ActivationError::HttpError(message) => ActivationErrorView::HttpError(message@),
            ActivationError::ParseError(message) => ActivationErrorView::ParseError(message@),
            ActivationError::ServerError(status, body) => ActivationErrorView::ServerError(
                status,
                body@,
            ),
            ActivationError::Timeout => ActivationErrorView::Timeout,
            ActivationError::InvalidChallenge => ActivationErrorView::InvalidChallenge,
            ActivationError::Expired => ActivationErrorView::Expired,
        }
    }
}

/// Which answer the body of a verification holds.
#[derive(Debug, Clone, Copy, PartialEq, Eq, Structural)]
pub enum VerifyBody {
    /// A `VerifyBoundResponse`.
    Bound,
    /// A `VerifyPendingResponse`.
    Pending,
}

/// Milliseconds for which a code is valid unless the server says otherwise.
pub const DEFAULT_TIMEOUT_MS: u64 = 300_000;

/// The part of `s` before its first `/`.
pub open spec fn host_part(s: Seq<char>) -> Seq<char> {
    s.take(position_of(s, '/'))
}

/// The HTTP form of a server address: `ws://host/path` becomes
/// `http://host`, `wss://host/path` becomes `https://host`; any other
/// address is kept. White space around the address is dropped.
pub open spec fn http_form(url: Seq<char>) -> Seq<char> {
    let u = trimmed(url);
    if "wss://"@.is_prefix_of(u) {
        "https://"@ + host_part(u.skip(6))
    } else if "ws://"@.is_prefix_of(u) {
        "http://"@ + host_part(u.skip(5))
    } else {
        u
    }
}

/// Turns the address of a WebSocket server into that of its HTTP side.
pub fn convert_ws_to_http(url: &str) -> (http: String)
    ensures
        http@ == http_form(url@),
{
    let plain = trim_text(url);
    let chars = chars_of(plain.as_str());
    proof {
        reveal_strlit("wss://");
        reveal_strlit("ws://");
    }
    if has_prefix(&chars, "wss://") {
        let end = find_from(&chars, 6, '/');
        let mut http = String::from_str("https://");
        http.append(plain.as_str().substring_char(6, end));
        proof {
            let rest = chars@.skip(6);
            crate::text::lemma_position_of(rest, '/');
            assert(chars@.subrange(6, chars@.len() as int) =~= rest);
            assert(chars@.subrange(6, end as int) =~= host_part(rest));
        }
        http
    } else if has_prefix(&chars, "ws://") {
        let end = find_from(&chars, 5, '/');
        let mut http = String::from_str("http://");
        http.append(plain.as_str().substring_char(5, end));
        proof {
            let rest = chars@.skip(5);
            crate::text::lemma_position_of(rest, '/');
            assert(chars@.subrange(5, chars@.len() as int) =~= rest);
            assert(chars@.subrange(5, end as int) =~= host_part(rest));
        }
        http
    } else {
        plain
    }
}

/// `s` without the `/` characters at its end.
pub open spec fn without_trailing_slashes(s: Seq<char>) -> Seq<char>
    decreases s.len(),
{
    if s.len() > 0 && s.last() == '/' {
        without_trailing_slashes(s.drop_last())
    } else {
        s
    }
}

/// Drops the `/` characters at the end of an address.
pub fn strip_trailing_slashes(s: &str) -> (out: String)
    ensures
        out@ == without_trailing_slashes(s@),
{
    let chars = chars_of(s);
    let mut end: usize = chars.len();
    assert(chars@.subrange(0, end as int) =~= chars@);
    while end > 0 && chars[end - 1] == '/'
        invariant
            end <= chars@.len(),
            without_trailing_slashes(chars@) == without_trailing_slashes(
                chars@.subrange(0, end as int),
            ),
        decreases end,
    {
        assert(chars@.subrange(0, end as int).drop_last() =~= chars@.subrange(0, end as int - 1));
        end -= 1;
    }
    s.substring_char(0, end).to_owned()
}

/// What an `ActivationSession` holds.
pub struct ActivationSessionView {
    pub device_id: Seq<char>,
    pub proxy_url: Seq<char>,
    pub code: Seq<char>,
    pub challenge: Seq<char>,
    pub timeout_ms: u64,
    pub firmware_version: Seq<char>,
}

/// One activation of one device.
#[derive(Debug, Clone, PartialEq, Eq)]
pub struct ActivationSession {
    /// Device id: twelve lower-case hexadecimal digits.
    pub device_id: String,
    /// Address of the activation service.
    pub proxy_url: String,
    /// The activation code.
    pub code: String,
    /// The challenge.
    pub challenge: String,
    /// Milliseconds for which the code is valid.
    pub timeout_ms: u64,
    /// Version of the firmware.
    pub firmware_version: String,
}

impl View for ActivationSession {
    type V = ActivationSessionView;

    open spec fn view(&self) -> ActivationSessionView {
        ActivationSessionView {
            device_id: self.device_id@,
            proxy_url: self.proxy_url@,
            code: self.code@,
            challenge: self.challenge@,
            timeout_ms: self.timeout_ms,
            firmware_version: self.firmware_version@,
        }
    }
}

/// `seconds` in milliseconds, capped at the largest `u64`.
pub open spec fn capped_millis(seconds: u64) -> u64 {
    if seconds * 1000 > u64::MAX {
        u64::MAX
    } else {
        (seconds * 1000) as u64
    }
}

impl ActivationSession {
    /// A session without a code yet. The server's address may be given in
    /// its WebSocket or its HTTP form.
    pub fn new(device_id: String, server_url: String, firmware_version: String) -> (session: Self)
        ensures
            session@ == (ActivationSessionView {
                device_id: device_id@,
                proxy_url: http_form(server_url@),
                code: Seq::empty(),
                challenge: Seq::empty(),
                timeout_ms: DEFAULT_TIMEOUT_MS,
                firmware_version: firmware_version@,
            }),
    {
        let proxy_url = convert_ws_to_http(server_url.as_str());
        ActivationSession {
            device_id,
            proxy_url,
            code: String::new(),
            challenge: String::new(),
            timeout_ms: DEFAULT_TIMEOUT_MS,
            firmware_version,
        }
    }

    /// The address that hands out an activation code.
    pub fn request_url(&self) -> (url: String)
        ensures
            url@ == without_trailing_slashes(self@.proxy_url) + "/api/activation?device_id="@
                + self@.device_id,
    {
        let mut url = strip_trailing_slashes(self.proxy_url.as_str());
        url.append("/api/activation?device_id=");
        url.append(self.device_id.as_str());
        url
    }

    /// The address that verifies an activation.
    pub fn verify_url(&self) -> (url: String)
        ensures
            url@ == without_trailing_slashes(self@.proxy_url) + "/api/activation/verify"@,
    {
        let mut url = strip_trailing_slashes(self.proxy_url.as_str());
        url.append("/api/activation/verify");
        url
    }

    /// Judges the status of the answer to a request for a code: only 200
    /// carries a code.
    pub fn check_request_status(status: u16, body: String) -> (outcome: Result<
        (),
        ActivationError,
    >)
        ensures
            status == 200 ==> outcome is Ok,
            status != 200 ==> outcome is Err && outcome->Err_0@
                == ActivationErrorView::ServerError(status, body@),
    {
        if status == 200 {
            Ok(())
        } else {
            Err(ActivationError::ServerError(status, body))
        }
    }

    /// Takes over the code that the server handed out.
    pub fn accept_code(&mut self, response: ActivationResponse)
        ensures
            final(self)@ == (ActivationSessionView {
                code: response.code@,
                challenge: response.challenge@,
                timeout_ms: capped_millis(response.expires_in),
                ..old(self)@
            }),
    {
        self.code = response.code;
        self.challenge = response.challenge;
        self.timeout_ms = if response.expires_in > u64::MAX / 1000 {
            u64::MAX
        } else {
            response.expires_in * 1000
        };
    }

    /// Judges the status of the answer to a verification: 200 carries a
    /// bound answer, 202 a pending one; 401 says the challenge is wrong, 404
    /// and 410 that the code has expired; any other status is the server's
    /// error.
    pub fn check_verify_status(status: u16, body: String) -> (outcome: Result<
        VerifyBody,
        ActivationError,
    >)
        ensures
            status == 200 ==> outcome == Ok::<VerifyBody, ActivationError>(VerifyBody::Bound),
            status == 202 ==> outcome == Ok::<VerifyBody, ActivationError>(VerifyBody::Pending),
            status == 401 ==> outcome is Err && outcome->Err_0@
                == ActivationErrorView::InvalidChallenge,
            status == 404 || status == 410 ==> outcome is Err && outcome->Err_0@
                == ActivationErrorView::Expired,
            !(status == 200 || status == 202 || status == 401 || status == 404 || status == 410)
                ==> outcome is Err && outcome->Err_0@ == ActivationErrorView::ServerError(
                status,
                body@,
            ),
    {
        if status == 200 {
            Ok(VerifyBody::Bound)
        } else if status == 202 {
            Ok(VerifyBody::Pending)
        } else if status == 401 {
            Err(ActivationError::InvalidChallenge)
        } else if status == 404 || status == 410 {
            Err(ActivationError::Expired)
        } else {
            Err(ActivationError::ServerError(status, body))
        }
    }

    /// The activation code, to be shown.
    pub fn get_code(&self) -> (code: &str)
        ensures
            code@ == self@.code,
    {
        self.code.as_str()
    }

    /// The digits of the activation code one by one, to be read out.
    pub fn get_code_digits(&self) -> (digits: Vec<char>)
        ensures
            digits@ == self@.code,
    {
        chars_of(self.code.as_str())
    }
}

/// How the activation is polled.
#[derive(Debug, Clone, Copy, PartialEq, Eq, Structural)]
pub struct ActivationConfig {
    /// Milliseconds between two polls.
    pub poll_interval_ms: u64,
    /// Polls before the activation times out.
    pub max_poll_count: u32,
}

impl Default for ActivationConfig {
    /// A poll every five seconds, sixty polls: five minutes.
    fn default() -> (config: Self)
        ensures
            config == (ActivationConfig { poll_interval_ms: 5000, max_poll_count: 60 }),
    {
        ActivationConfig { poll_interval_ms: 5000, max_poll_count: 60 }
    }
}

impl ActivationConfig {
    /// Whether polling goes on after `polls` polls; where it does not the
    /// activation has timed out.
    pub fn may_poll(&self, polls: u32) -> (go_on: bool)
        ensures
            go_on == (polls < self.max_poll_count),
    {
        polls < self.max_poll_count
    }
}

} // verus!
