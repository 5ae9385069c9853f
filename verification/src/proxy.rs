//! Validation of UI-issued requests before they are forwarded to the local
//! service.
//!
//! The proxy itself holds no state: it reads the shared record under the same
//! exclusive access as the supervisor, decides whether the request may be
//! forwarded, and with which verb. The forwarding round-trip is I/O and
//! happens outside the library; a transport failure is carried back as
//! [`ProxyError::RequestFailed`].

use vstd::prelude::*;

use crate::state::Data;

verus! {

/// The verbs the proxy forwards.
#[derive(Clone, Copy, Debug, PartialEq, Eq, Structural)]
pub enum Method {
    Get,
    Post,
    Put,
}

/// Why a proxied request was not, or could not be, carried out.
#[derive(Debug, PartialEq, Eq)]
pub enum ProxyError {
    /// The request arrived while disconnected; it never reaches the local
    /// service.
    NotConnected,
    /// The caller supplied a verb other than `GET`, `POST` or `PUT`.
    InvalidMethod,
    /// A `POST` or `PUT` arrived without a body.
    MissingBody,
    /// The local service's transport reported the contained failure.
    RequestFailed(String),
}

impl ProxyError {
    /// The error's human-readable description, as handed to the UI.
    /// For a transport failure it is the transport's own message, verbatim.
    pub fn message(&self) -> (r: String)
        ensures
            self is NotConnected ==> r@ == "Not connected to League client"@,
            self is InvalidMethod ==> r@ == "Invalid method"@,
            self is MissingBody ==> r@ == "Missing request body"@,
            self matches ProxyError::RequestFailed(m) ==> r@ == m@,
    {
        match self {
            ProxyError::NotConnected => String::from_str("Not connected to League client"),
            ProxyError::InvalidMethod => String::from_str("Invalid method"),
            ProxyError::MissingBody => String::from_str("Missing request body"),
            ProxyError::RequestFailed(m) => m.clone(),
        }
    }
}

/// Whether a sequence of characters spells `GET`, in any mix of upper and
/// lower case.
pub open spec fn is_get(s: Seq<char>) -> bool {
    &&& s.len() == 3
    &&& (s[0] == 'g' || s[0] == 'G')
    &&& (s[1] == 'e' || s[1] == 'E')
    &&& (s[2] == 't' || s[2] == 'T')
}

/// Whether a sequence of characters spells `POST`, in any mix of upper and
/// lower case.
pub open spec fn is_post(s: Seq<char>) -> bool {
    &&& s.len() == 4
    &&& (s[0] == 'p' || s[0] == 'P')
    &&& (s[1] == 'o' || s[1] == 'O')
    &&& (s[2] == 's' || s[2] == 'S')
    &&& (s[3] == 't' || s[3] == 'T')
}

/// Whether a sequence of characters spells `PUT`, in any mix of upper and
/// lower case.
pub open spec fn is_put(s: Seq<char>) -> bool {
    &&& s.len() == 3
    &&& (s[0] == 'p' || s[0] == 'P')
    &&& (s[1] == 'u' || s[1] == 'U')
    &&& (s[2] == 't' || s[2] == 'T')
}

/// The verb a method string denotes, or `None` for any unsupported verb.
pub open spec fn spec_parse_method(s: Seq<char>) -> Option<Method> {
    if is_get(s) {
        Some(Method::Get)
    } else if is_post(s) {
        Some(Method::Post)
    } else if is_put(s) {
        Some(Method::Put)
    } else {
        None
    }
}

/// Parse a method string, case-insensitively, into one of the supported
/// verbs.
pub fn parse_method(method: &str) -> (r: Option<Method>)
    ensures
        r == spec_parse_method(method@),
{
    let len = method.unicode_len();
    if len == 3 {
        let c0 = method.get_char(0);
        let c1 = method.get_char(1);
        let c2 = method.get_char(2);
        if (c0 == 'g' || c0 == 'G') && (c1 == 'e' || c1 == 'E') && (c2 == 't' || c2 == 'T') {
            Some(Method::Get)
        } else if (c0 == 'p' || c0 == 'P') && (c1 == 'u' || c1 == 'U') && (c2 == 't' || c2
            == 'T') {
            Some(Method::Put)
        } else {
            None
        }
    } else if len == 4 {
        let c0 = method.get_char(0);
        let c1 = method.get_char(1);
        let c2 = method.get_char(2);
        let c3 = method.get_char(3);
        if (c0 == 'p' || c0 == 'P') && (c1 == 'o' || c1 == 'O') && (c2 == 's' || c2 == 'S') && (c3
            == 't' || c3 == 'T') {
            Some(Method::Post)
        } else {
            None
        }
    } else {
        None
    }
}

/// The proxy's decision on one request: the verb to forward, or the error to
/// hand back. The connection state is checked first, then the verb, then the
/// body requirement.
pub open spec fn spec_plan(connected: bool, method: Seq<char>, has_body: bool) -> Result<
    Method,
    ProxyError,
> {
    if !connected {
        Err(ProxyError::NotConnected)
    } else {
        match spec_parse_method(method) {
            None => Err(ProxyError::InvalidMethod),
            Some(m) => if (m is Post || m is Put) && !has_body {
                Err(ProxyError::MissingBody)
            } else {
                Ok(m)
            },
        }
    }
}

impl<S, P> Data<S, P> {
    /// Decide whether a request may be forwarded to the local service, and
    /// with which verb.
    ///
    /// The decision is total: for every state and every input it returns
    /// either the verb or the exact error of [`spec_plan`] — `NotConnected`
    /// while disconnected, `InvalidMethod` for an unsupported verb,
    /// `MissingBody` for a body-less `POST` or `PUT`, and the verb otherwise.
    /// On `Ok` the record is connected, so the session handle is present for
    /// the forwarding call.
    pub fn plan_request(&self, method: &str, has_body: bool) -> (r: Result<Method, ProxyError>)
        ensures
            r == spec_plan(self.connected, method@, has_body),
            r is Ok ==> self.connected,
    {
        if !self.is_connected() {
            return Err(ProxyError::NotConnected);
        }
        match parse_method(method) {
            None => Err(ProxyError::InvalidMethod),
            Some(m) => {
                if (matches!(m, Method::Post) || matches!(m, Method::Put)) && !has_body {
                    Err(ProxyError::MissingBody)
                } else {
                    Ok(m)
                }
            },
        }
    }
}

/// Law: a request issued while disconnected always fails with
/// `NotConnected`, whatever its verb and body — it never reaches the local
/// service.
pub proof fn lemma_disconnected_always_rejected(method: Seq<char>, has_body: bool)
    ensures
        spec_plan(false, method, has_body) == Err::<Method, ProxyError>(ProxyError::NotConnected),
{
}

/// Law: while connected, an unsupported verb always fails with
/// `InvalidMethod`, with or without a body.
pub proof fn lemma_invalid_method_rejected(method: Seq<char>, has_body: bool)
    requires
        spec_parse_method(method) is None,
    ensures
        spec_plan(true, method, has_body) == Err::<Method, ProxyError>(ProxyError::InvalidMethod),
{
}

/// Law: while connected, a `POST` or `PUT` without a body always fails with
/// `MissingBody` — it is rejected, not forwarded with an absent body.
pub proof fn lemma_missing_body_rejected(method: Seq<char>)
    requires
        spec_parse_method(method) matches Some(m) && (m is Post || m is Put),
    ensures
        spec_plan(true, method, false) == Err::<Method, ProxyError>(ProxyError::MissingBody),
{
}

/// Law: while connected, every supported verb with its body requirement met
/// is forwarded — a `GET` with or without a body, a `POST` or `PUT` with one.
pub proof fn lemma_valid_request_forwarded(method: Seq<char>, has_body: bool)
    requires
        spec_parse_method(method) is Some,
        has_body || spec_parse_method(method) == Some(Method::Get),
    ensures
        spec_plan(true, method, has_body) == Ok::<Method, ProxyError>(
            spec_parse_method(method).unwrap(),
        ),
{
}

} // verus!
