//! The error taxonomy: the closed set of classified failures, their fixed
//! renderings, and the classification of an HTTP response into raw audio
//! bytes or one of those failures.

use vstd::prelude::*;
use vstd::string::StringExecFns;

use crate::text::dec_digits;
use crate::text::append_dec_u64;

verus! {

/// All failures an operation can surface.  One value is constructed at the
/// single point a failure is detected and returned at once; the library
/// never retries internally.
#[derive(Debug)]
pub enum ElevenLabsSFXError {
    /// The transport itself failed (connection, timeout, name resolution);
    /// no HTTP response was obtained.  Holds a description of the cause.
    RequestError(String),
    /// The service answered with a failing status not otherwise classified.
    ApiError { status: u16, message: String },
    /// A response body could not be parsed where parsing was expected.
    /// Holds a description of the cause.
    ParseError(String),
    /// Status 401: the API key was not accepted.
    AuthenticationError(String),
    /// Status 429: too many requests.  `retry_after` is in seconds; it is
    /// never filled in by status classification, which does not read headers.
    RateLimitError { retry_after: Option<u64>, message: String },
    /// Status 402: not enough credits.
    QuotaExceededError(String),
    /// Invalid input detected on the client side, before any network call.
    ValidationError(String),
}

/// The fixed, deterministic rendering of each error kind.
pub open spec fn rendered(e: ElevenLabsSFXError) -> Seq<char> {
    match e {
        ElevenLabsSFXError::RequestError(d) => "Request failed: "@ + d@,
        ElevenLabsSFXError::ApiError { status, message } => "API error ("@ + dec_digits(
            status as nat,
        ) + "): "@ + message@,
        ElevenLabsSFXError::ParseError(d) => "Failed to parse response: "@ + d@,
        ElevenLabsSFXError::AuthenticationError(m) => "Authentication failed: "@ + m@,
        ElevenLabsSFXError::RateLimitError { retry_after, message } => match retry_after {
            Option::Some(s) => "Rate limit exceeded (retry in "@ + dec_digits(s as nat) + "s): "@
                + message@,
            Option::None => "Rate limit exceeded: "@ + message@,
        },
        ElevenLabsSFXError::QuotaExceededError(m) => "Quota exceeded: "@ + m@,
        ElevenLabsSFXError::ValidationError(m) => "Validation error: "@ + m@,
    }
}

impl ElevenLabsSFXError {
    /// The stable, human-readable rendering of this error, suitable for
    /// direct display or logging.
    pub fn render(&self) -> (r: String)
        ensures
            r@ == rendered(*self),
    {
        match self {
            ElevenLabsSFXError::RequestError(d) => {
                let mut out = String::from_str("Request failed: ");
                out.append(d.as_str());
                out
            },
            ElevenLabsSFXError::ApiError { status, message } => {
                let mut out = String::from_str("API error (");
                append_dec_u64(&mut out, *status as u64);
                out.append("): ");
                out.append(message.as_str());
                proof {
                    assert(out@ =~= rendered(*self));
                }
                out
            },
            ElevenLabsSFXError::ParseError(d) => {
                let mut out = String::from_str("Failed to parse response: ");
                out.append(d.as_str());
                out
            },
            ElevenLabsSFXError::AuthenticationError(m) => {
                let mut out = String::from_str("Authentication failed: ");
                out.append(m.as_str());
                out
            },
            ElevenLabsSFXError::RateLimitError { retry_after, message } => match retry_after {
                Option::Some(s) => {
                    let mut out = String::from_str("Rate limit exceeded (retry in ");
                    append_dec_u64(&mut out, *s);
                    out.append("s): ");
                    out.append(message.as_str());
                    proof {
                        assert(out@ =~= rendered(*self));
                    }
                    out
                },
                Option::None => {
                    let mut out = String::from_str("Rate limit exceeded: ");
                    out.append(message.as_str());
                    out
                },
            },
            ElevenLabsSFXError::QuotaExceededError(m) => {
                let mut out = String::from_str("Quota exceeded: ");
                out.append(m.as_str());
                out
            },
            ElevenLabsSFXError::ValidationError(m) => {
                let mut out = String::from_str("Validation error: ");
                out.append(m.as_str());
                out
            },
        }
    }

    /// The description of the underlying transport or decode cause, for the
    /// two kinds that carry one; it never alters the rendered message.
    pub fn source(&self) -> (r: Option<&String>)
        ensures
            (self is RequestError || self is ParseError) <==> r is Some,
            self matches ElevenLabsSFXError::RequestError(d) ==> (r matches Some(s) && s@ == d@),
            self matches ElevenLabsSFXError::ParseError(d) ==> (r matches Some(s) && s@ == d@),
    {
        match self {
            ElevenLabsSFXError::RequestError(d) => Some(d),
            ElevenLabsSFXError::ParseError(d) => Some(d),
            _ => None,
        }
    }
}

/// The best-effort text decoding of a response body, as a function of the
/// bytes alone.
pub uninterp spec fn decoded_text(bytes: Seq<u8>) -> Seq<char>;

/// Relies on String::from_utf8_lossy: the decoded text is a function of the
/// bytes alone (invalid sequences become replacement characters, so the
/// decode itself never fails).
#[verifier::external_body]
fn decode_body_text(bytes: &Vec<u8>) -> (r: String)
    ensures
        r@ == decoded_text(bytes@),
{
    String::from_utf8_lossy(bytes.as_slice()).into_owned()
}

/// Whether an HTTP status code counts as success.
pub open spec fn is_success_status(status: u16) -> bool {
    200 <= status < 300
}

/// Interprets one HTTP response to the generation request: on a success
/// status the body is the audio payload and is returned unaltered; on any
/// other status the response is classified into the error taxonomy, purely
/// by status code, with the body text carried as the message of an
/// unclassified status.
pub fn interpret_response(status: u16, body: Vec<u8>) -> (r: Result<
    Vec<u8>,
    ElevenLabsSFXError,
>)
    ensures
        is_success_status(status) ==> (r matches Ok(b) && b@ == body@),
        !is_success_status(status) ==> r is Err,
        status == 401 ==> (r matches Err(ElevenLabsSFXError::AuthenticationError(m)) && m@
            == "Invalid API key"@),
        status == 429 ==> (r matches Err(
            ElevenLabsSFXError::RateLimitError { retry_after, message },
        ) && retry_after is None && message@ == "Too many requests"@),
        status == 402 ==> (r matches Err(ElevenLabsSFXError::QuotaExceededError(m)) && m@
            == "Insufficient credits"@),
        (!is_success_status(status) && status != 401 && status != 429 && status != 402) ==> (
        r matches Err(ElevenLabsSFXError::ApiError { status: s, message }) && s == status
            && message@ == decoded_text(body@)),
{
    if 200 <= status && status < 300 {
        Ok(body)
    } else if status == 401 {
        Err(ElevenLabsSFXError::AuthenticationError(String::from_str("Invalid API key")))
    } else if status == 429 {
        Err(
            ElevenLabsSFXError::RateLimitError {
                retry_after: None,
                message: String::from_str("Too many requests"),
            },
        )
    } else if status == 402 {
        Err(ElevenLabsSFXError::QuotaExceededError(String::from_str("Insufficient credits")))
    } else {
        let message = decode_body_text(&body);
        Err(ElevenLabsSFXError::ApiError { status, message })
    }
}

/// `needle` occurs contiguously inside `hay`.
pub open spec fn contains_seq(hay: Seq<char>, needle: Seq<char>) -> bool {
    exists|i: int|
        0 <= i && i + needle.len() <= hay.len() && #[trigger] hay.subrange(i, i + needle.len())
            == needle
}

/// A sequence contains each of its prefixes.
proof fn lemma_prefix_contains(hay: Seq<char>, needle: Seq<char>)
    requires
        needle.len() <= hay.len(),
        hay.subrange(0, needle.len() as int) == needle,
    ensures
        contains_seq(hay, needle),
{
    let i: int = 0;
    assert(0 <= i && i + needle.len() <= hay.len() && hay.subrange(i, i + needle.len()) == needle);
}

/// Law: an authentication failure renders with the substring
/// "Authentication failed", whatever its message; with the fixed message
/// from status classification it renders exactly
/// "Authentication failed: Invalid API key".
pub proof fn lemma_authentication_rendering(e: ElevenLabsSFXError)
    requires
        e is AuthenticationError,
    ensures
        contains_seq(rendered(e), "Authentication failed"@),
        (e matches ElevenLabsSFXError::AuthenticationError(m) && m@ == "Invalid API key"@)
            ==> rendered(e) == "Authentication failed: Invalid API key"@,
{
    reveal_strlit("Authentication failed");
    reveal_strlit("Authentication failed: ");
    reveal_strlit("Invalid API key");
    reveal_strlit("Authentication failed: Invalid API key");
    match e {
        ElevenLabsSFXError::AuthenticationError(m) => {
            let needle = "Authentication failed"@;
            assert(rendered(e).subrange(0, needle.len() as int) =~= needle);
            lemma_prefix_contains(rendered(e), needle);
            if m@ == "Invalid API key"@ {
                assert(rendered(e) =~= "Authentication failed: Invalid API key"@);
            }
        },
        _ => {},
    }
}

/// Law: a rate-limit failure without a retry time renders as
/// "Rate limit exceeded: " followed by its message alone; with the fixed
/// message from status classification it renders exactly
/// "Rate limit exceeded: Too many requests", which carries no retry time.
pub proof fn lemma_rate_limit_rendering(e: ElevenLabsSFXError)
    requires
        e matches ElevenLabsSFXError::RateLimitError { retry_after, message } && retry_after
            is None,
    ensures
        contains_seq(rendered(e), "Rate limit exceeded"@),
        (e matches ElevenLabsSFXError::RateLimitError { retry_after, message } && message@
            == "Too many requests"@) ==> rendered(e) == "Rate limit exceeded: Too many requests"@
            && !contains_seq(rendered(e), "retry in"@),
{
    reveal_strlit("Rate limit exceeded");
    reveal_strlit("Rate limit exceeded: ");
    reveal_strlit("Too many requests");
    reveal_strlit("Rate limit exceeded: Too many requests");
    reveal_strlit("retry in");
    match e {
        ElevenLabsSFXError::RateLimitError { retry_after, message } => {
            let needle = "Rate limit exceeded"@;
            assert(rendered(e).subrange(0, needle.len() as int) =~= needle);
            lemma_prefix_contains(rendered(e), needle);
            if message@ == "Too many requests"@ {
                let hay = "Rate limit exceeded: Too many requests"@;
                assert(rendered(e) =~= hay);
                assert(!contains_seq(hay, "retry in"@)) by {
                    assert forall|i: int|
                        0 <= i && i + 8 <= hay.len() implies #[trigger] hay.subrange(i, i + 8)
                            != "retry in"@ by {
                        if hay.subrange(i, i + 8) == "retry in"@ {
                            assert(hay.subrange(i, i + 8)[0] == hay[i]);
                            assert(hay.subrange(i, i + 8)[2] == hay[i + 2]);
                            assert(hay[i] == 'r' && hay[i + 2] == 't');
                            assert(false);
                        }
                    }
                }
            }
        },
        _ => {},
    }
}

/// Law: a quota failure renders with the substring "Quota exceeded",
/// whatever its message; with the fixed message from status classification
/// it renders exactly "Quota exceeded: Insufficient credits".
pub proof fn lemma_quota_rendering(e: ElevenLabsSFXError)
    requires
        e is QuotaExceededError,
    ensures
        contains_seq(rendered(e), "Quota exceeded"@),
        (e matches ElevenLabsSFXError::QuotaExceededError(m) && m@ == "Insufficient credits"@)
            ==> rendered(e) == "Quota exceeded: Insufficient credits"@,
{
    reveal_strlit("Quota exceeded");
    reveal_strlit("Quota exceeded: ");
    reveal_strlit("Insufficient credits");
    reveal_strlit("Quota exceeded: Insufficient credits");
    match e {
        ElevenLabsSFXError::QuotaExceededError(m) => {
            let needle = "Quota exceeded"@;
            assert(rendered(e).subrange(0, needle.len() as int) =~= needle);
            lemma_prefix_contains(rendered(e), needle);
            if m@ == "Insufficient credits"@ {
                assert(rendered(e) =~= "Quota exceeded: Insufficient credits"@);
            }
        },
        _ => {},
    }
}

/// Law: an unclassified status failure renders as "API error (", the
/// decimal status, "): " and its message, which status classification fills
/// with the decoded response body text.
pub proof fn lemma_api_error_rendering(e: ElevenLabsSFXError)
    requires
        e is ApiError,
    ensures
        (e matches ElevenLabsSFXError::ApiError { status, message } ==> rendered(e) == "API error ("@
            + dec_digits(status as nat) + "): "@ + message@),
        contains_seq(rendered(e), "API error ("@),
{
    reveal_strlit("API error (");
    match e {
        ElevenLabsSFXError::ApiError { status, message } => {
            let needle = "API error ("@;
            assert(rendered(e).subrange(0, needle.len() as int) =~= needle);
            lemma_prefix_contains(rendered(e), needle);
        },
        _ => {},
    }
}

} // verus!
