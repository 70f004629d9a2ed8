//! Which nodes may relay connections.

use crate::node_id::{contains, NodeId};
use url::Url;
use vstd::prelude::*;

verus! {

/// A parsed URL of the `url` crate.
#[verifier::external_type_specification]
#[verifier::external_body]
pub struct ExUrl(Url);

/// The header that carries the node id in an access request.
pub const X_IROH_NODE_ID: &'static str = "X-Iroh-Node-Id";

/// The header that carries the bearer token in an access request.
pub const AUTHORIZATION: &'static str = "authorization";

/// The environment variable that a bearer token may come from.
pub const ENV_HTTP_BEARER_TOKEN: &'static str = "IROH_RELAY_HTTP_BEARER_TOKEN";

/// The status of a response that may grant access.
pub const STATUS_OK: u16 = 200;

/// Whether a node may relay connections.
#[derive(Clone, Copy, Debug, PartialEq, Eq, Structural)]
pub enum Access {
    Allow,
    Deny,
}

/// How access is controlled.
#[derive(Debug, PartialEq, Eq)]
pub enum AccessConfig {
    /// Allows everyone.
    Everyone,
    /// Allows only these nodes.
    Allowlist(Vec<NodeId>),
    /// Allows everyone, except these nodes.
    Denylist(Vec<NodeId>),
    /// Asks an HTTP endpoint about each node, in a `POST` request whose header
    /// `X-Iroh-Node-Id` is the hex-encoded node id.
    ///
    /// To grant access, the endpoint must answer with status `200` and the text
    /// `true`. In all other cases the node is denied access.
    Http(HttpAccessConfig),
}

/// The HTTP endpoint that is asked for access.
#[derive(Debug, PartialEq, Eq)]
pub struct HttpAccessConfig {
    /// The URL to send the `POST` request to.
    pub url: Url,
    /// The token that authorises the relay at the endpoint.
    ///
    /// If set, the request has a header `Authorization: Bearer {token}`. A token
    /// in the environment variable `IROH_RELAY_HTTP_BEARER_TOKEN` takes the place
    /// of this one.
    pub bearer_token: Option<String>,
}

/// A `POST` request, without a body, that asks for access.
#[derive(Debug)]
pub struct AccessRequest<'a> {
    pub url: &'a Url,
    /// The names and values of the request's headers, in order.
    pub headers: Vec<(String, String)>,
}

/// What a relay does about a node that connects.
#[derive(Debug)]
pub enum AccessCheck<'a> {
    /// The configuration alone decides.
    Decided(Access),
    /// The HTTP endpoint decides.
    Ask(AccessRequest<'a>),
}

/// The texts of a list of headers.
pub open spec fn header_texts(headers: Seq<(String, String)>) -> Seq<(Seq<char>, Seq<char>)> {
    headers.map_values(|header: (String, String)| (header.0@, header.1@))
}

impl HttpAccessConfig {
    /// The headers of the request that asks this endpoint about `node_id`.
    pub open spec fn headers_for(self, node_id: NodeId) -> Seq<(Seq<char>, Seq<char>)> {
        let node = seq![(X_IROH_NODE_ID@, crate::node_id::hex(node_id.bytes@))];
        match self.bearer_token {
            Some(token) => node.push((AUTHORIZATION@, "Bearer "@ + token@)),
            None => node,
        }
    }

    /// Makes the request that asks this endpoint about `node_id`.
    pub fn request<'a>(&'a self, node_id: &NodeId) -> (request: AccessRequest<'a>)
        ensures
            *request.url == self.url,
            header_texts(request.headers@) == self.headers_for(*node_id),
    {
        let mut headers: Vec<(String, String)> = Vec::new();
        headers.push((X_IROH_NODE_ID.to_owned(), node_id.to_hex()));
        if let Some(token) = &self.bearer_token {
            let value: String = "Bearer ".to_owned().concat(token.as_str());
            headers.push((AUTHORIZATION.to_owned(), value));
        }
        assert(header_texts(headers@) =~= self.headers_for(*node_id));
        AccessRequest { url: &self.url, headers }
    }
}

impl AccessConfig {
    /// The access that this configuration alone gives to `node_id`; `None` where
    /// the HTTP endpoint decides.
    pub open spec fn verdict(self, node_id: NodeId) -> Option<Access> {
        match self {
            AccessConfig::Everyone => Some(Access::Allow),
            AccessConfig::Allowlist(nodes) => Some(
                if nodes@.contains(node_id) {
                    Access::Allow
                } else {
                    Access::Deny
                },
            ),
            AccessConfig::Denylist(nodes) => Some(
                if nodes@.contains(node_id) {
                    Access::Deny
                } else {
                    Access::Allow
                },
            ),
            AccessConfig::Http(_) => None,
        }
    }

    /// This configuration with the token of the environment, if there is one, in
    /// place of its own.
    pub open spec fn with_token(self, token: Option<String>) -> AccessConfig {
        match (self, token) {
            (AccessConfig::Http(http), Some(token)) => AccessConfig::Http(
                HttpAccessConfig { url: http.url, bearer_token: Some(token) },
            ),
            _ => self,
        }
    }

    /// Puts the token of the environment, if there is one, in place of the token
    /// that is configured.
    pub fn set_token(self, token: Option<String>) -> (config: AccessConfig)
        ensures
            config == self.with_token(token),
    {
        match self {
            AccessConfig::Http(http) => match token {
                Some(token) => AccessConfig::Http(
                    HttpAccessConfig { url: http.url, bearer_token: Some(token) },
                ),
                None => AccessConfig::Http(http),
            },
            other => other,
        }
    }

    /// Says what to do about a node that connects.
    pub fn check<'a>(&'a self, node_id: &NodeId) -> (check: AccessCheck<'a>)
        ensures
            match self.verdict(*node_id) {
                Some(access) => check == AccessCheck::<'a>::Decided(access),
                None => check matches AccessCheck::Ask(request) && *request.url == self->Http_0.url
                    && header_texts(request.headers@) == self->Http_0.headers_for(*node_id),
            },
    {
        match self {
            AccessConfig::Everyone => AccessCheck::Decided(Access::Allow),
            AccessConfig::Allowlist(nodes) => AccessCheck::Decided(
                if contains(nodes, node_id) {
                    Access::Allow
                } else {
                    Access::Deny
                },
            ),
            AccessConfig::Denylist(nodes) => AccessCheck::Decided(
                if contains(nodes, node_id) {
                    Access::Deny
                } else {
                    Access::Allow
                },
            ),
            AccessConfig::Http(http) => AccessCheck::Ask(http.request(node_id)),
        }
    }
}

impl Default for AccessConfig {
    fn default() -> (config: AccessConfig)
        ensures
            config == AccessConfig::Everyone,
    {
        AccessConfig::Everyone
    }
}

/// Why an HTTP endpoint did not grant access.
#[derive(Clone, Copy, Debug, PartialEq, Eq, Structural)]
pub enum HttpAccessError {
    /// The request got no response.
    NoResponse,
    /// The response has a status other than `200`.
    InvalidStatus(u16),
    /// The text of the response could not be read.
    NoText,
    /// The text of the response is not `true`.
    InvalidText,
}

/// What happens while an HTTP endpoint is asked.
#[derive(Debug)]
pub enum HttpEvent {
    /// The request could not be sent, or no response came.
    SendFailed,
    /// A response came with this status.
    Status(u16),
    /// The text of the response could not be read.
    TextFailed,
    /// The response has this text.
    Text(String),
}

/// How far the question to an HTTP endpoint has come.
#[derive(Clone, Copy, Debug, PartialEq, Eq)]
pub enum HttpCheck {
    /// The request is to be sent.
    Sending,
    /// The text of the response is to be read.
    ReadingText,
    /// The question is answered.
    Finished(Result<(), HttpAccessError>),
}

impl HttpCheck {
    /// Where the question has come to after `event`. An event that cannot happen
    /// at this point changes nothing.
    pub open spec fn after(self, event: HttpEvent) -> HttpCheck {
        match (self, event) {
            (HttpCheck::Sending, HttpEvent::SendFailed) => HttpCheck::Finished(
                Err(HttpAccessError::NoResponse),
            ),
            (HttpCheck::Sending, HttpEvent::Status(status)) => if status == STATUS_OK {
                HttpCheck::ReadingText
            } else {
                HttpCheck::Finished(Err(HttpAccessError::InvalidStatus(status)))
            },
            (HttpCheck::ReadingText, HttpEvent::TextFailed) => HttpCheck::Finished(
                Err(HttpAccessError::NoText),
            ),
            (HttpCheck::ReadingText, HttpEvent::Text(text)) => HttpCheck::Finished(
                if text@ == "true"@ {
                    Ok(())
                } else {
                    Err(HttpAccessError::InvalidText)
                },
            ),
            _ => self,
        }
    }

    /// The access that the node has at this point.
    pub open spec fn granted(self) -> Access {
        if self matches HttpCheck::Finished(Ok(_)) {
            Access::Allow
        } else {
            Access::Deny
        }
    }

    /// Takes the question on by one event.
    pub fn step(self, event: HttpEvent) -> (next: HttpCheck)
        ensures
            next == self.after(event),
    {
        match (self, event) {
            (HttpCheck::Sending, HttpEvent::SendFailed) => HttpCheck::Finished(
                Err(HttpAccessError::NoResponse),
            ),
            (HttpCheck::Sending, HttpEvent::Status(status)) => if status == STATUS_OK {
                HttpCheck::ReadingText
            } else {
                HttpCheck::Finished(Err(HttpAccessError::InvalidStatus(status)))
            },
            (HttpCheck::ReadingText, HttpEvent::TextFailed) => HttpCheck::Finished(
                Err(HttpAccessError::NoText),
            ),
            (HttpCheck::ReadingText, HttpEvent::Text(text)) => if text.eq(&"true".to_owned()) {
                HttpCheck::Finished(Ok(()))
            } else {
                HttpCheck::Finished(Err(HttpAccessError::InvalidText))
            },
            (check, _) => check,
        }
    }

    /// Returns the access that the node has at this point: none, until the
    /// question is answered with a grant.
    pub fn access(&self) -> (access: Access)
        ensures
            access == self.granted(),
    {
        match self {
            HttpCheck::Finished(Ok(())) => Access::Allow,
            _ => Access::Deny,
        }
    }
}

/// An allowlist and a denylist that name the same nodes, in whatever order and
/// however often, decide about every node, and never alike.
pub proof fn allowlist_and_denylist_disagree(
    allowed: Vec<NodeId>,
    denied: Vec<NodeId>,
    node_id: NodeId,
)
    requires
        forall|node: NodeId| allowed@.contains(node) <==> denied@.contains(node),
    ensures
        AccessConfig::Allowlist(allowed).verdict(node_id) is Some,
        AccessConfig::Denylist(denied).verdict(node_id) is Some,
        AccessConfig::Allowlist(allowed).verdict(node_id) != AccessConfig::Denylist(denied).verdict(
            node_id,
        ),
{
}

/// The environment's token changes no verdict that the configuration alone
/// gives, and a request then carries that token whatever token is configured.
pub proof fn environment_token_wins(config: AccessConfig, token: String, node_id: NodeId)
    ensures
        config.with_token(Some(token)).verdict(node_id) == config.verdict(node_id),
        config is Http ==> {
            let with = config.with_token(Some(token));
            with is Http && with->Http_0.url == config->Http_0.url
                && with->Http_0.headers_for(node_id).last() == (AUTHORIZATION@, "Bearer "@ + token@)
        },
        config.with_token(None) == config,
{
}

/// An access request names its node: requests about different nodes differ.
pub proof fn request_names_its_node(http: HttpAccessConfig, a: NodeId, b: NodeId)
    requires
        http.headers_for(a) == http.headers_for(b),
    ensures
        a == b,
{
    assert(http.headers_for(a)[0].1 == http.headers_for(b)[0].1);
    crate::node_id::spelling_is_unique(a, b);
}

/// Access is granted if and only if the endpoint answers with status `200` and
/// the text `true`.
pub proof fn only_true_grants_access(first: HttpEvent, second: HttpEvent)
    ensures
        HttpCheck::Sending.after(first).after(second).granted() == Access::Allow <==> {
            &&& first matches HttpEvent::Status(status) && status == STATUS_OK
            &&& second matches HttpEvent::Text(text) && text@ == "true"@
        },
        HttpCheck::Sending.after(first).granted() == Access::Deny,
{
}

/// An answered question stays answered as it is.
pub proof fn answers_are_final(answer: Result<(), HttpAccessError>, event: HttpEvent)
    ensures
        HttpCheck::Finished(answer).after(event) == HttpCheck::Finished(answer),
{
}

} // verus!
