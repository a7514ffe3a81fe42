//! Turning an inbound request into the request sent to the fixed upstream.

use vstd::prelude::*;
use crate::config::ProxyConfig;
use crate::headers::{Header, names_match, is_hop_by_hop, name_matches, hop_by_hop};

verus! {

/// A request as received from a client.
pub struct InboundRequest<B> {
    pub method: String,
    /// Path and query of the request target; `None` where the target had none
    /// (an authority-form target).
    pub path_and_query: Option<String>,
    /// Header fields in the order received, duplicates included.
    pub headers: Vec<Header>,
    pub body: B,
}

/// Absolute target of a forwarded request.
pub struct Destination {
    pub scheme: String,
    pub authority: String,
    pub path_and_query: String,
}

/// A request ready to be sent upstream.
pub struct OutboundRequest<B> {
    pub method: String,
    pub uri: Destination,
    pub headers: Vec<Header>,
    pub body: B,
}

/// Why a request could not be forwarded.
#[derive(Debug)]
pub enum ForwardError {
    /// The request lacked the header that carries the intended host.
    MissingSmuggleHeader,
    /// The request target has no path and query to put behind the destination.
    UriConstruction,
    /// Sending the request upstream failed; holds the transport's description.
    UpstreamDispatch(String),
}

/// A header that survives forwarding: not hop-by-hop, not the host-carrying
/// header, and not a `Host` that the carried value replaces.
pub open spec fn kept_header(h: Header, smuggle: Seq<char>) -> bool {
    &&& !is_hop_by_hop(h.name@)
    &&& !names_match(h.name@, smuggle)
    &&& !names_match(h.name@, "host"@)
}

/// The inbound headers that are relayed unchanged, in their order.
pub open spec fn kept_headers(hs: Seq<Header>, smuggle: Seq<char>) -> Seq<Header>
    decreases hs.len(),
{
    if hs.len() == 0 {
        seq![]
    } else {
        let rest = kept_headers(hs.drop_last(), smuggle);
        if kept_header(hs.last(), smuggle) {
            rest.push(hs.last())
        } else {
            rest
        }
    }
}

/// The value of the first host-carrying header that is not hop-by-hop.
pub open spec fn smuggled_host(hs: Seq<Header>, smuggle: Seq<char>) -> Option<Seq<u8>>
    decreases hs.len(),
{
    if hs.len() == 0 {
        None
    } else {
        let before = smuggled_host(hs.drop_last(), smuggle);
        if before is Some {
            before
        } else if !is_hop_by_hop(hs.last().name@) && names_match(hs.last().name@, smuggle) {
            Some(hs.last().value@)
        } else {
            None
        }
    }
}

/// `out` is the forwarded form of `req` under `config`.
pub open spec fn forwarded<B>(config: ProxyConfig, req: InboundRequest<B>, out: OutboundRequest<B>) -> bool {
    &&& req.path_and_query is Some
    &&& smuggled_host(req.headers@, config.smuggle_header@) is Some
    &&& out.method@ == req.method@
    &&& out.body == req.body
    &&& out.uri.scheme@ == "http"@
    &&& out.uri.authority@ == config.authority@
    &&& out.uri.path_and_query@ == req.path_and_query->0@
    &&& out.headers@.len() > 0
    &&& out.headers@.drop_last() == kept_headers(req.headers@, config.smuggle_header@)
    &&& out.headers@.last().name@ == "host"@
    &&& out.headers@.last().value@ == smuggled_host(req.headers@, config.smuggle_header@)->0
}

/// What forwarding `req` under `config` yields: the forwarded request, or the
/// error that the request's own content calls for.
pub open spec fn forward_result<B>(
    config: ProxyConfig,
    req: InboundRequest<B>,
    r: Result<OutboundRequest<B>, ForwardError>,
) -> bool {
    match r {
        Ok(out) => forwarded(config, req, out),
        Err(ForwardError::MissingSmuggleHeader) => smuggled_host(
            req.headers@,
            config.smuggle_header@,
        ) is None,
        Err(ForwardError::UriConstruction) => {
            &&& smuggled_host(req.headers@, config.smuggle_header@) is Some
            &&& req.path_and_query is None
        },
        Err(ForwardError::UpstreamDispatch(_)) => false,
    }
}

/// Rewrites an inbound request for the configured destination: drops the
/// hop-by-hop headers, moves the host-carrying header's value into `Host`,
/// and targets `http://<destination><path and query>`.
pub fn forward<B>(config: &ProxyConfig, request: InboundRequest<B>) -> (r: Result<
    OutboundRequest<B>,
    ForwardError,
>)
    ensures
        forward_result(*config, request, r),
{
    let ghost orig = request.headers@;
    let ghost smuggle = config.smuggle_header@;
    let InboundRequest { method, path_and_query, headers, body } = request;
    let mut rest = headers;
    let mut kept: Vec<Header> = Vec::new();
    let mut host: Option<Vec<u8>> = None;
    let ghost mut i: int = 0;
    while rest.len() > 0
        invariant
            smuggle == config.smuggle_header@,
            0 <= i <= orig.len(),
            rest@ == orig.subrange(i, orig.len() as int),
            kept@ == kept_headers(orig.subrange(0, i), smuggle),
            match host {
                Some(v) => smuggled_host(orig.subrange(0, i), smuggle) == Some(v@),
                None => smuggled_host(orig.subrange(0, i), smuggle) is None,
            },
        decreases rest.len(),
    {
        let h = rest.remove(0);
        let ghost prefix = orig.subrange(0, i + 1);
        proof {
            assert(prefix.drop_last() =~= orig.subrange(0, i));
            assert(prefix.last() == h);
            i = i + 1;
            assert(rest@ =~= orig.subrange(i, orig.len() as int));
            assert(kept_headers(prefix, smuggle) == (if kept_header(h, smuggle) {
                kept@.push(h)
            } else {
                kept@
            }));
        }
        let name = h.name.as_str();
        if hop_by_hop(name) {
        } else if name_matches(name, config.smuggle_header.as_str()) {
            if host.is_none() {
                host = Some(h.value);
            }
        } else if name_matches(name, "host") {
        } else {
            kept.push(h);
        }
    }
    assert(orig.subrange(0, i) =~= orig);
    let value = match host {
        Some(v) => v,
        None => {
            return Err(ForwardError::MissingSmuggleHeader);
        },
    };
    let path_and_query = match path_and_query {
        Some(p) => p,
        None => {
            return Err(ForwardError::UriConstruction);
        },
    };
    let ghost relayed = kept@;
    kept.push(Header { name: String::from_str("host"), value });
    assert(kept@.drop_last() =~= relayed);
    let uri = Destination {
        scheme: String::from_str("http"),
        authority: config.authority.clone(),
        path_and_query,
    };
    Ok(OutboundRequest { method, uri, headers: kept, body })
}

} // verus!
