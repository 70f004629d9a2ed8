//! What holds of access control.

use crate::access::{
    Access, AccessCheck, AccessConfig, AccessRequest, HttpAccessConfig, HttpAccessError, HttpCheck,
    HttpEvent,
};
use crate::node_id::{contains, NodeId};
use vstd::prelude::*;

verus! {

/// Two identifiers are the same exactly where they agree in every byte.
pub proof fn identifiers_differ_in_a_byte(a: NodeId, b: NodeId, same: bool)
    requires
        call_ensures(NodeId::same, (&a, &b), same),
    ensures
        same <==> forall|i: int| 0 <= i < 32 ==> #[trigger] a.bytes@[i] == b.bytes@[i],
{
    if forall|i: int| 0 <= i < 32 ==> #[trigger] a.bytes@[i] == b.bytes@[i] {
        assert(a.bytes =~= b.bytes);
    }
}

/// A list names a node exactly where one of its entries is that node.
pub proof fn list_names_its_entries(nodes: Vec<NodeId>, id: NodeId, found: bool)
    requires
        call_ensures(contains, (&nodes, &id), found),
    ensures
        found <==> exists|i: int| 0 <= i < nodes@.len() && #[trigger] nodes@[i] == id,
{
}

/// The number that a hexadecimal digit stands for; -1 for any other character.
pub open spec fn digit_value(digit: char) -> int {
    if '0' <= digit && digit <= '9' {
        digit as int - '0' as int
    } else if 'a' <= digit && digit <= 'f' {
        digit as int - 'a' as int + 10
    } else {
        -1
    }
}

/// The spelling of a node id consists of 64 lowercase hexadecimal digits, and
/// reading them back, two for each byte, gives the node id.
pub proof fn spelling_reads_back(id: NodeId, text: String)
    requires
        call_ensures(NodeId::to_hex, (&id,), text),
    ensures
        text@.len() == 64,
        forall|i: int| 0 <= i < 64 ==> 0 <= digit_value(#[trigger] text@[i]) < 16,
        forall|i: int|
            0 <= i < 32 ==> #[trigger] id.bytes@[i] as int == 16 * digit_value(text@[2 * i])
                + digit_value(text@[2 * i + 1]),
{
    assert forall|i: int| 0 <= i < 32 implies #[trigger] id.bytes@[i] as int == 16 * digit_value(
        text@[2 * i],
    ) + digit_value(text@[2 * i + 1]) by {
        let byte = id.bytes@[i] as int;
        assert(text@[2 * i] == crate::node_id::hex_digit(byte / 16));
        assert(text@[2 * i + 1] == crate::node_id::hex_digit(byte % 16));
    }
}

/// A request goes to the configured URL. Its first header, and no other, is the
/// node's: it carries the spelling of the node id, with or without a token. The
/// only other header is that of the token, which is there exactly where there is a
/// token.
pub proof fn request_names_node_and_token(
    http: HttpAccessConfig,
    id: NodeId,
    request: AccessRequest<'_>,
    spelling: String,
)
    requires
        call_ensures(HttpAccessConfig::request, (&http, &id), request),
        call_ensures(NodeId::to_hex, (&id,), spelling),
    ensures
        *request.url == http.url,
        request.headers@.len() == if http.bearer_token is Some {
            2int
        } else {
            1int
        },
        request.headers@[0].0@ == "X-Iroh-Node-Id"@,
        request.headers@[0].1@ == spelling@,
        http.bearer_token matches Some(token) ==> request.headers@[1].0@ == "authorization"@
            && request.headers@[1].1@ == "Bearer "@ + token@,
        forall|i: int|
            0 <= i < request.headers@.len() ==> (#[trigger] request.headers@[i].0@
                == "X-Iroh-Node-Id"@ <==> i == 0),
        forall|i: int|
            0 <= i < request.headers@.len() ==> (#[trigger] request.headers@[i].0@
                == "authorization"@ <==> i == 1),
{
    reveal_strlit("X-Iroh-Node-Id");
    reveal_strlit("authorization");
    let texts = crate::access::header_texts(request.headers@);
    assert(texts.len() == request.headers@.len());
    assert(texts[0] == (request.headers@[0].0@, request.headers@[0].1@));
    if http.bearer_token is Some {
        assert(texts[1] == (request.headers@[1].0@, request.headers@[1].1@));
    }
    assert("X-Iroh-Node-Id"@.len() != "authorization"@.len());
}

/// The headers that are due to an endpoint, as contracts speak of them: the node's
/// header stands first, and only the token's header follows it.
pub proof fn headers_begin_with_the_node(http: HttpAccessConfig, id: NodeId)
    ensures
        ({
            let headers = http.headers_for(id);
            &&& headers.first() == ("X-Iroh-Node-Id"@, crate::node_id::hex(id.bytes@))
            &&& forall|i: int|
                0 < i < headers.len() ==> http.bearer_token is Some && i == 1 && #[trigger] headers[i]
                    == ("authorization"@, "Bearer "@ + http.bearer_token->0@)
            &&& http.bearer_token is Some ==> headers.len() == 2
        }),
{
}

/// A token changes nothing of the headers but its own: those of two endpoints agree
/// in the node's header, and in all exactly where the tokens are the same.
pub proof fn token_only_adds_its_header(
    one: HttpAccessConfig,
    other: HttpAccessConfig,
    id: NodeId,
)
    ensures
        one.headers_for(id).take(1) == other.headers_for(id).take(1),
        one.headers_for(id) == other.headers_for(id) <==> match (
            one.bearer_token,
            other.bearer_token,
        ) {
            (None, None) => true,
            (Some(a), Some(b)) => a@ == b@,
            _ => false,
        },
{
    let (a, b) = (one.headers_for(id), other.headers_for(id));
    assert(a.take(1) =~= b.take(1));
    if let (Some(x), Some(y)) = (one.bearer_token, other.bearer_token) {
        if a == b {
            let (with_x, with_y) = ("Bearer "@ + x@, "Bearer "@ + y@);
            assert(a[1].1 == with_x && b[1].1 == with_y);
            assert(with_x.skip("Bearer "@.len() as int) =~= x@);
            assert(with_y.skip("Bearer "@.len() as int) =~= y@);
        }
    }
}

/// What is done about a node: an endpoint is asked exactly where one is configured.
/// Otherwise everyone is allowed, or those alone who are on the allowlist, or those
/// alone who are not on the denylist.
pub proof fn node_is_judged_by_its_list(
    config: AccessConfig,
    id: NodeId,
    check: AccessCheck<'_>,
    listed: bool,
)
    requires
        call_ensures(AccessConfig::check, (&config, &id), check),
        config matches AccessConfig::Allowlist(nodes) ==> call_ensures(
            contains,
            (&nodes, &id),
            listed,
        ),
        config matches AccessConfig::Denylist(nodes) ==> call_ensures(
            contains,
            (&nodes, &id),
            listed,
        ),
    ensures
        check is Ask <==> config is Http,
        config is Everyone ==> check == AccessCheck::<'_>::Decided(Access::Allow),
        config is Allowlist ==> (check matches AccessCheck::Decided(access) && (access
            == Access::Allow <==> listed)),
        config is Denylist ==> (check matches AccessCheck::Decided(access) && (access
            == Access::Deny <==> listed)),
{
}

/// The verdict on a node, as contracts speak of it: membership decides, in a list
/// of whatever length and order.
pub proof fn verdict_goes_by_membership(config: AccessConfig, id: NodeId)
    ensures
        config.verdict(id) is None <==> config is Http,
        config is Everyone ==> config.verdict(id) == Some(Access::Allow),
        config matches AccessConfig::Allowlist(nodes) ==> (config.verdict(id) == Some(Access::Allow)
            <==> exists|i: int| 0 <= i < nodes@.len() && #[trigger] nodes@[i] == id),
        config matches AccessConfig::Denylist(nodes) ==> (config.verdict(id) == Some(Access::Deny)
            <==> exists|i: int| 0 <= i < nodes@.len() && #[trigger] nodes@[i] == id),
{
}

/// Where an endpoint is asked about a node, it is asked with the request that the
/// endpoint's configuration makes for that node: the same URL and the same headers.
pub proof fn question_is_the_endpoints_request(
    http: HttpAccessConfig,
    id: NodeId,
    check: AccessCheck<'_>,
    request: AccessRequest<'_>,
)
    requires
        call_ensures(AccessConfig::check, (&AccessConfig::Http(http), &id), check),
        call_ensures(HttpAccessConfig::request, (&http, &id), request),
    ensures
        check matches AccessCheck::Ask(asked) && {
            &&& *asked.url == http.url
            &&& asked.headers@.len() == request.headers@.len()
            &&& forall|i: int|
                0 <= i < request.headers@.len() ==> (#[trigger] asked.headers@[i]).0@
                    == request.headers@[i].0@ && asked.headers@[i].1@ == request.headers@[i].1@
        },
{
    if let AccessCheck::Ask(asked) = check {
        let theirs = crate::access::header_texts(asked.headers@);
        let ours = crate::access::header_texts(request.headers@);
        assert(theirs == ours);
        assert(theirs.len() == asked.headers@.len());
        assert(ours.len() == request.headers@.len());
        assert forall|i: int| 0 <= i < request.headers@.len() implies (
        #[trigger] asked.headers@[i]).0@ == request.headers@[i].0@ && asked.headers@[i].1@
            == request.headers@[i].1@ by {
            assert(theirs[i] == (asked.headers@[i].0@, asked.headers@[i].1@));
            assert(ours[i] == (request.headers@[i].0@, request.headers@[i].1@));
        }
    }
}

/// The environment's token takes the place of the configured token, and nothing
/// else: the URL stays, lists stay as they are, and without a token in the
/// environment everything does.
pub proof fn token_replaces_only_the_token(
    config: AccessConfig,
    token: Option<String>,
    with: AccessConfig,
)
    requires
        call_ensures(AccessConfig::set_token, (config, token), with),
    ensures
        config !is Http ==> with == config,
        token is None ==> with == config,
        with is Http <==> config is Http,
        config matches AccessConfig::Http(before) ==> (with matches AccessConfig::Http(after)
            && after.url == before.url && after.bearer_token == if token is Some {
            token
        } else {
            before.bearer_token
        }),
{
}

/// How the question to an endpoint goes on. The text is read exactly after a
/// response with status 200, the grant comes exactly of the text `true`, and each
/// refusal tells its own reason. Any other event leaves the question where it is.
pub proof fn question_goes_on_step_by_step(check: HttpCheck, event: HttpEvent, next: HttpCheck)
    requires
        call_ensures(HttpCheck::step, (check, event), next),
    ensures
        check is Finished ==> next == check,
        next is Sending <==> check is Sending && event !is SendFailed && event !is Status,
        next is ReadingText <==> {
            ||| check is Sending && event == HttpEvent::Status(200)
            ||| check is ReadingText && event !is TextFailed && event !is Text
        },
        check !is Finished ==> (next == HttpCheck::Finished(Ok(())) <==> check is ReadingText && (
        event matches HttpEvent::Text(text) && text@ == "true"@)),
        check !is Finished ==> (next == HttpCheck::Finished(Err(HttpAccessError::NoResponse)) <==>
            check is Sending && event is SendFailed),
        check !is Finished ==> (next == HttpCheck::Finished(Err(HttpAccessError::NoText)) <==> check
            is ReadingText && event is TextFailed),
        check !is Finished ==> (next == HttpCheck::Finished(Err(HttpAccessError::InvalidText)) <==>
            check is ReadingText && (event matches HttpEvent::Text(text) && text@ != "true"@)),
        check !is Finished ==> forall|status: u16| #[trigger]
            is_refusal_of(next, status) <==> check is Sending && event == HttpEvent::Status(status)
                && status != 200,
{
}

/// Whether the question was answered with a refusal for this status.
pub open spec fn is_refusal_of(check: HttpCheck, status: u16) -> bool {
    check == HttpCheck::Finished(Err(HttpAccessError::InvalidStatus(status)))
}

/// A node has access exactly after a question that was answered with a grant.
pub proof fn only_a_grant_gives_access(check: HttpCheck, access: Access)
    requires
        call_ensures(HttpCheck::access, (&check,), access),
    ensures
        access == Access::Allow <==> check matches HttpCheck::Finished(Ok(_)),
{
}

/// The question to an endpoint, from its start: whatever happens first and second,
/// the node has access exactly where a response came with status 200 and then the
/// text `true`.
pub proof fn access_comes_of_ok_and_true(
    first: HttpEvent,
    second: HttpEvent,
    after_first: HttpCheck,
    after_second: HttpCheck,
    access: Access,
)
    requires
        call_ensures(HttpCheck::step, (HttpCheck::Sending, first), after_first),
        call_ensures(HttpCheck::step, (after_first, second), after_second),
        call_ensures(HttpCheck::access, (&after_second,), access),
    ensures
        access == Access::Allow <==> first == HttpEvent::Status(200) && (
        second matches HttpEvent::Text(text) && text@ == "true"@),
{
}

} // verus!
