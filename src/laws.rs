//! Properties of forwarding that hold of every request.

use vstd::prelude::*;
use crate::config::ProxyConfig;
use crate::forward::{
    ForwardError,
    InboundRequest,
    OutboundRequest,
    forward_result,
    kept_header,
    kept_headers,
    smuggled_host,
};
use crate::handler::{Reply, failure_prefix, reply_result};
use crate::headers::{Header, char_eq_ignore_case, is_hop_by_hop, names_match};

verus! {

/// Every relayed header passes the filter, and comes from the inbound headers.
pub proof fn lemma_kept_headers_pass(hs: Seq<Header>, smuggle: Seq<char>)
    ensures
        forall|i: int|
            0 <= i < kept_headers(hs, smuggle).len() ==> kept_header(
                #[trigger] kept_headers(hs, smuggle)[i],
                smuggle,
            ),
    decreases hs.len(),
{
    if hs.len() > 0 {
        let rest = kept_headers(hs.drop_last(), smuggle);
        lemma_kept_headers_pass(hs.drop_last(), smuggle);
        if kept_header(hs.last(), smuggle) {
            assert forall|i: int| 0 <= i < rest.len() + 1 implies kept_header(
                #[trigger] rest.push(hs.last())[i],
                smuggle,
            ) by {
                if i < rest.len() {
                    assert(rest.push(hs.last())[i] == rest[i]);
                }
            }
        }
    }
}

/// Case-insensitive name matching does not depend on the order of the names.
pub proof fn lemma_names_match_symmetric(a: Seq<char>, b: Seq<char>)
    ensures
        names_match(a, b) == names_match(b, a),
{
    if names_match(a, b) {
        assert forall|i: int| 0 <= i < b.len() implies char_eq_ignore_case(#[trigger] b[i], a[i]) by {
            assert(char_eq_ignore_case(a[i], b[i]));
        }
    }
    if names_match(b, a) {
        assert forall|i: int| 0 <= i < a.len() implies char_eq_ignore_case(#[trigger] a[i], b[i]) by {
            assert(char_eq_ignore_case(b[i], a[i]));
        }
    }
}

/// `Host` is not a hop-by-hop header.
pub proof fn lemma_host_not_hop_by_hop()
    ensures
        !is_hop_by_hop("host"@),
{
    reveal_strlit("host");
    reveal_strlit("Connection");
    reveal_strlit("Keep-alive");
    reveal_strlit("Public");
    reveal_strlit("Proxy-Authenticate");
    reveal_strlit("Transfer-Encoding");
    reveal_strlit("Upgrade");
}

/// A request without the host-carrying header is refused before anything is
/// sent upstream, and its client gets status 500 with a body that ends in the
/// request's identifier.
pub proof fn lemma_missing_header_refused<B>(
    config: ProxyConfig,
    req: InboundRequest<B>,
    r: Result<OutboundRequest<B>, ForwardError>,
    id: Seq<char>,
    reply: Reply<OutboundRequest<B>>,
)
    requires
        smuggled_host(req.headers@, config.smuggle_header@) is None,
        forward_result(config, req, r),
        reply_result(id, r, reply),
    ensures
        r matches Err(ForwardError::MissingSmuggleHeader),
        reply matches Reply::Failure(e) && e.status == 500 && e.body@.subrange(
            failure_prefix().len() as int,
            e.body@.len() as int,
        ) == id,
{
    if let Reply::Failure(e) = reply {
        assert(e.body@.subrange(failure_prefix().len() as int, e.body@.len() as int) =~= id);
    }
}

/// Every failure, whatever its cause, reaches the client as status 500 with
/// the fixed text followed by the request's identifier.
pub proof fn lemma_failure_reply<R>(
    id: Seq<char>,
    err: ForwardError,
    reply: Reply<R>,
)
    requires
        reply_result(id, Err::<R, ForwardError>(err), reply),
    ensures
        reply matches Reply::Failure(e) && e.status == 500 && e.body@ == failure_prefix() + id,
{
}

/// The forwarded request carries the host-carrying header's value as its one
/// `Host` header, and never the host-carrying header itself (unless that
/// header is named `Host`).
pub proof fn lemma_host_substituted<B>(
    config: ProxyConfig,
    req: InboundRequest<B>,
    out: OutboundRequest<B>,
)
    requires
        forward_result(config, req, Ok(out)),
        !names_match(config.smuggle_header@, "host"@),
    ensures
        smuggled_host(req.headers@, config.smuggle_header@) matches Some(v)
            && out.headers@.last().value@ == v,
        out.headers@.last().name@ == "host"@,
        forall|i: int|
            0 <= i < out.headers@.len() - 1 ==> !names_match(
                #[trigger] out.headers@[i].name@,
                "host"@,
            ),
        forall|i: int|
            0 <= i < out.headers@.len() ==> !names_match(
                #[trigger] out.headers@[i].name@,
                config.smuggle_header@,
            ),
{
    let smuggle = config.smuggle_header@;
    lemma_kept_headers_pass(req.headers@, smuggle);
    lemma_names_match_symmetric(smuggle, "host"@);
    assert forall|i: int| 0 <= i < out.headers@.len() implies !names_match(
        #[trigger] out.headers@[i].name@,
        smuggle,
    ) by {
        if i < out.headers@.len() - 1 {
            assert(out.headers@[i] == out.headers@.drop_last()[i]);
        }
    }
    assert forall|i: int| 0 <= i < out.headers@.len() - 1 implies !names_match(
        #[trigger] out.headers@[i].name@,
        "host"@,
    ) by {
        assert(out.headers@[i] == out.headers@.drop_last()[i]);
    }
}

/// No hop-by-hop header, in any casing, reaches the upstream.
pub proof fn lemma_no_hop_by_hop_forwarded<B>(
    config: ProxyConfig,
    req: InboundRequest<B>,
    out: OutboundRequest<B>,
)
    requires
        forward_result(config, req, Ok(out)),
    ensures
        forall|i: int|
            0 <= i < out.headers@.len() ==> !is_hop_by_hop(#[trigger] out.headers@[i].name@),
{
    lemma_kept_headers_pass(req.headers@, config.smuggle_header@);
    lemma_host_not_hop_by_hop();
    assert forall|i: int| 0 <= i < out.headers@.len() implies !is_hop_by_hop(
        #[trigger] out.headers@[i].name@,
    ) by {
        if i < out.headers@.len() - 1 {
            assert(out.headers@[i] == out.headers@.drop_last()[i]);
        }
    }
}

/// The forwarded request targets `http`, the configured destination, and the
/// inbound path and query unchanged.
pub proof fn lemma_destination<B>(
    config: ProxyConfig,
    req: InboundRequest<B>,
    out: OutboundRequest<B>,
)
    requires
        forward_result(config, req, Ok(out)),
    ensures
        req.path_and_query matches Some(p) && out.uri.path_and_query@ == p@,
        out.uri.scheme@ == "http"@,
        out.uri.authority@ == config.authority@,
{
}

/// What is forwarded depends on the request's own method, target, headers and
/// body alone: requests that agree on those are forwarded alike, whatever
/// other requests are in flight.
pub proof fn lemma_forwarding_isolated<B>(
    config: ProxyConfig,
    a: InboundRequest<B>,
    b: InboundRequest<B>,
    x: OutboundRequest<B>,
    y: OutboundRequest<B>,
)
    requires
        forward_result(config, a, Ok(x)),
        forward_result(config, b, Ok(y)),
        a.method@ == b.method@,
        a.path_and_query->0@ == b.path_and_query->0@,
        a.headers@ == b.headers@,
        a.body == b.body,
    ensures
        x.method@ == y.method@,
        x.body == y.body,
        x.uri.scheme@ == y.uri.scheme@,
        x.uri.authority@ == y.uri.authority@,
        x.uri.path_and_query@ == y.uri.path_and_query@,
        x.headers@.len() == y.headers@.len(),
        forall|i: int| 0 <= i < x.headers@.len() ==> #[trigger] x.headers@[i]@ == y.headers@[i]@,
{
    assert(x.headers@.drop_last() == y.headers@.drop_last());
    assert(x.headers@.len() == y.headers@.len());
    assert forall|i: int| 0 <= i < x.headers@.len() implies #[trigger] x.headers@[i]@
        == y.headers@[i]@ by {
        if i < x.headers@.len() - 1 {
            assert(x.headers@[i] == x.headers@.drop_last()[i]);
            assert(y.headers@[i] == y.headers@.drop_last()[i]);
        }
    }
}

} // verus!
