//! Access control.

use relay_config::access::{
    Access, AccessCheck, AccessConfig, HttpAccessConfig, HttpAccessError, HttpCheck, HttpEvent,
    AUTHORIZATION, ENV_HTTP_BEARER_TOKEN, STATUS_OK, X_IROH_NODE_ID,
};
use relay_config::node_id::{contains, NodeId};

fn node(first: u8) -> NodeId {
    let mut bytes = [0; 32];
    bytes[0] = first;
    NodeId { bytes }
}

fn decided(config: &AccessConfig, id: NodeId) -> Access {
    match config.check(&id) {
        AccessCheck::Decided(access) => access,
        other => panic!("{other:?}"),
    }
}

fn http(token: Option<&str>) -> AccessConfig {
    AccessConfig::Http(HttpAccessConfig {
        url: "https://example.com/foo".parse().unwrap(),
        bearer_token: token.map(|token| token.to_string()),
    })
}

fn headers(config: &AccessConfig, id: NodeId) -> Vec<(String, String)> {
    match config.check(&id) {
        AccessCheck::Ask(request) => {
            assert_eq!(request.url.as_str(), "https://example.com/foo");
            request.headers
        }
        other => panic!("{other:?}"),
    }
}

fn outcome(events: Vec<HttpEvent>) -> HttpCheck {
    let mut check = HttpCheck::Sending;
    for event in events {
        check = check.step(event);
    }
    check
}

#[test]
fn everyone_is_allowed_by_default() {
    assert_eq!(AccessConfig::default(), AccessConfig::Everyone);
    assert_eq!(decided(&AccessConfig::default(), node(1)), Access::Allow);
}

#[test]
fn lists_decide_by_membership() {
    let allow = AccessConfig::Allowlist(vec![node(1), node(2)]);
    assert_eq!(decided(&allow, node(2)), Access::Allow);
    assert_eq!(decided(&allow, node(3)), Access::Deny);
    let deny = AccessConfig::Denylist(vec![node(1), node(2)]);
    assert_eq!(decided(&deny, node(2)), Access::Deny);
    assert_eq!(decided(&deny, node(3)), Access::Allow);
}

#[test]
fn lists_of_the_same_nodes_never_decide_alike() {
    let allow = AccessConfig::Allowlist(vec![node(1), node(2)]);
    let deny = AccessConfig::Denylist(vec![node(2), node(1), node(2)]);
    for id in [node(1), node(2), node(3)] {
        assert_ne!(decided(&allow, id), decided(&deny, id));
    }
}

#[test]
fn empty_lists_decide_alike_for_all() {
    assert_eq!(decided(&AccessConfig::Allowlist(Vec::new()), node(0)), Access::Deny);
    assert_eq!(decided(&AccessConfig::Denylist(Vec::new()), node(0)), Access::Allow);
}

#[test]
fn nodes_differ_in_any_byte() {
    let mut bytes = [7; 32];
    bytes[31] = 8;
    assert!(NodeId { bytes }.same(&NodeId { bytes }));
    assert!(!NodeId { bytes }.same(&NodeId { bytes: [7; 32] }));
    assert!(!contains(&vec![NodeId { bytes: [7; 32] }], &NodeId { bytes }));
}

#[test]
fn node_ids_are_spelled_in_hex() {
    let mut bytes = [0; 32];
    bytes[0] = 0x01;
    bytes[1] = 0xfe;
    bytes[31] = 0xab;
    let expected = format!("01fe{}ab", "00".repeat(29));
    assert_eq!(NodeId { bytes }.to_hex(), expected);
    let digits = NodeId {
        bytes: [
            0x01, 0x23, 0x45, 0x67, 0x89, 0xab, 0xcd, 0xef, 0xfe, 0xdc, 0xba, 0x98, 0x76, 0x54, 0x32,
            0x10, 0x01, 0x23, 0x45, 0x67, 0x89, 0xab, 0xcd, 0xef, 0xfe, 0xdc, 0xba, 0x98, 0x76, 0x54,
            0x32, 0x10,
        ],
    };
    assert_eq!(
        digits.to_hex(),
        "0123456789abcdeffedcba98765432100123456789abcdeffedcba9876543210"
    );
}

#[test]
fn requests_name_the_node() {
    let expected = vec![("X-Iroh-Node-Id".to_string(), node(0x2a).to_hex())];
    assert_eq!(headers(&http(None), node(0x2a)), expected);
    assert_ne!(headers(&http(None), node(1)), headers(&http(None), node(2)));
}

#[test]
fn requests_carry_the_token() {
    let headers = headers(&http(Some("foo")), node(1));
    assert_eq!(headers.len(), 2);
    assert_eq!(headers[1], ("authorization".to_string(), "Bearer foo".to_string()));
}

#[test]
fn the_environment_token_wins() {
    for configured in [None, Some("foo")] {
        let config = http(configured).set_token(Some("bar".to_string()));
        assert_eq!(config, http(Some("bar")));
    }
    assert_eq!(http(Some("foo")).set_token(None), http(Some("foo")));
    let list = AccessConfig::Allowlist(vec![node(1)]).set_token(Some("bar".to_string()));
    assert_eq!(list, AccessConfig::Allowlist(vec![node(1)]));
}

#[test]
fn names_agree_with_http() {
    assert_eq!(AUTHORIZATION, http::header::AUTHORIZATION.as_str());
    assert_eq!(STATUS_OK, http::StatusCode::OK.as_u16());
    assert_eq!(X_IROH_NODE_ID, "X-Iroh-Node-Id");
    assert_eq!(ENV_HTTP_BEARER_TOKEN, "IROH_RELAY_HTTP_BEARER_TOKEN");
}

#[test]
fn ok_and_true_grant_access() {
    let check = outcome(vec![HttpEvent::Status(200), HttpEvent::Text("true".to_string())]);
    assert_eq!(check, HttpCheck::Finished(Ok(())));
    assert_eq!(check.access(), Access::Allow);
}

#[test]
fn all_other_answers_deny_access() {
    let cases = [
        (vec![HttpEvent::SendFailed], HttpAccessError::NoResponse),
        (vec![HttpEvent::Status(404)], HttpAccessError::InvalidStatus(404)),
        (vec![HttpEvent::Status(204)], HttpAccessError::InvalidStatus(204)),
        (vec![HttpEvent::Status(200), HttpEvent::TextFailed], HttpAccessError::NoText),
        (
            vec![HttpEvent::Status(200), HttpEvent::Text("true\n".to_string())],
            HttpAccessError::InvalidText,
        ),
        (
            vec![HttpEvent::Status(200), HttpEvent::Text("TRUE".to_string())],
            HttpAccessError::InvalidText,
        ),
        (
            vec![HttpEvent::Status(500), HttpEvent::Text("true".to_string())],
            HttpAccessError::InvalidStatus(500),
        ),
    ];
    for (events, error) in cases {
        let check = outcome(events);
        assert_eq!(check, HttpCheck::Finished(Err(error)));
        assert_eq!(check.access(), Access::Deny);
    }
}

#[test]
fn unanswered_questions_deny_access() {
    assert_eq!(HttpCheck::Sending.access(), Access::Deny);
    assert_eq!(outcome(vec![HttpEvent::Status(200)]), HttpCheck::ReadingText);
    assert_eq!(HttpCheck::ReadingText.access(), Access::Deny);
    let early = outcome(vec![HttpEvent::Text("true".to_string())]);
    assert_eq!(early, HttpCheck::Sending);
}

#[test]
fn answers_stay() {
    let denied = HttpCheck::Finished(Err(HttpAccessError::NoResponse));
    assert_eq!(denied.step(HttpEvent::Status(200)), denied);
    let granted = HttpCheck::Finished(Ok(()));
    assert_eq!(granted.step(HttpEvent::SendFailed), granted);
}
