//! Which request headers the proxy passes on to the upstream API.
//!
//! Names are compared as `http` keeps them: in lower case. The names below
//! are those of `http`'s standard header constants.
use vstd::prelude::*;
use vstd::string::StringExecFns;

use crate::text::str_eq;

verus! {

/// The hop-by-hop headers, and those that belong to one connection
/// (`Host`, `Origin`, the WebSocket handshake): never passed on.
pub open spec fn hop_by_hop(name: Seq<char>) -> bool {
    ||| name == "connection"@
    ||| name == "keep-alive"@
    ||| name == "proxy-authenticate"@
    ||| name == "proxy-authorization"@
    ||| name == "te"@
    ||| name == "trailer"@
    ||| name == "transfer-encoding"@
    ||| name == "upgrade"@
    ||| name == "origin"@
    ||| name == "host"@
    ||| name == "sec-websocket-version"@
    ||| name == "sec-websocket-key"@
    ||| name == "sec-websocket-accept"@
    ||| name == "sec-websocket-protocol"@
    ||| name == "sec-websocket-extensions"@
}

/// The `Accept-*` and `Content-*` headers that describe a body the proxy
/// writes itself.
pub open spec fn content_or_accept(name: Seq<char>) -> bool {
    ||| name == "accept"@
    ||| name == "accept-charset"@
    ||| name == "accept-encoding"@
    ||| name == "accept-ranges"@
    ||| name == "content-length"@
    ||| name == "content-type"@
}

/// Headers withheld where the proxy writes its own body.
pub open spec fn withheld(name: Seq<char>) -> bool {
    content_or_accept(name) || hop_by_hop(name)
}

/// The headers of `hs` whose names `withheld` does not hold of, in order.
pub open spec fn kept_headers<V>(hs: Seq<(String, V)>) -> Seq<(String, V)> {
    hs.filter(|h: (String, V)| !withheld(h.0@))
}

/// The headers of `hs` that are not hop-by-hop, in order.
pub open spec fn kept_headers_with_content<V>(hs: Seq<(String, V)>) -> Seq<(String, V)> {
    hs.filter(|h: (String, V)| !hop_by_hop(h.0@))
}

/// Whether the header `name` is hop-by-hop.
pub fn is_hop_by_hop(name: &str) -> (r: bool)
    ensures
        r == hop_by_hop(name@),
{
    proof {
        reveal_strlit("connection");
        reveal_strlit("keep-alive");
        reveal_strlit("proxy-authenticate");
        reveal_strlit("proxy-authorization");
        reveal_strlit("te");
        reveal_strlit("trailer");
        reveal_strlit("transfer-encoding");
        reveal_strlit("upgrade");
        reveal_strlit("origin");
        reveal_strlit("host");
        reveal_strlit("sec-websocket-version");
        reveal_strlit("sec-websocket-key");
        reveal_strlit("sec-websocket-accept");
        reveal_strlit("sec-websocket-protocol");
        reveal_strlit("sec-websocket-extensions");
    }
    str_eq(name, "connection") || str_eq(name, "keep-alive") || str_eq(name, "proxy-authenticate")
        || str_eq(name, "proxy-authorization") || str_eq(name, "te") || str_eq(name, "trailer")
        || str_eq(name, "transfer-encoding") || str_eq(name, "upgrade") || str_eq(name, "origin")
        || str_eq(name, "host") || str_eq(name, "sec-websocket-version") || str_eq(
        name,
        "sec-websocket-key",
    ) || str_eq(name, "sec-websocket-accept") || str_eq(name, "sec-websocket-protocol")
        || str_eq(name, "sec-websocket-extensions")
}

/// Whether the header `name` is withheld where the proxy writes its own body.
pub fn is_withheld(name: &str) -> (r: bool)
    ensures
        r == withheld(name@),
{
    proof {
        reveal_strlit("accept");
        reveal_strlit("accept-charset");
        reveal_strlit("accept-encoding");
        reveal_strlit("accept-ranges");
        reveal_strlit("content-length");
        reveal_strlit("content-type");
    }
    str_eq(name, "accept") || str_eq(name, "accept-charset") || str_eq(name, "accept-encoding")
        || str_eq(name, "accept-ranges") || str_eq(name, "content-length") || str_eq(
        name,
        "content-type",
    ) || is_hop_by_hop(name)
}

/// The client's headers to send upstream with a body the proxy writes:
/// all but the withheld ones, in their order, values untouched.
pub fn proxied_headers<V>(headers: Vec<(String, V)>) -> (r: Vec<(String, V)>)
    ensures
        r@ == kept_headers(headers@),
{
    let ghost h0 = headers@;
    let mut out: Vec<(String, V)> = Vec::new();
    proof {
        reveal(Seq::filter);
        assert(h0.take(0) =~= Seq::<(String, V)>::empty());
    }
    for h in it: headers.into_iter()
        invariant
            it.seq() == h0,
            out@ == kept_headers(h0.take(it.index() as int)),
    {
        proof {
            reveal(Seq::filter);
            assert(h0.take(it.index() + 1).drop_last() =~= h0.take(it.index() as int));
        }
        if !is_withheld(h.0.as_str()) {
            out.push(h);
        }
    }
    proof {
        assert(h0.take(h0.len() as int) =~= h0);
    }
    out
}

/// The client's headers to send upstream where the body passes through
/// as it came: all but the hop-by-hop ones, so `Content-*` and `Accept-*`
/// go along, in their order, values untouched.
pub fn proxied_headers_with_content<V>(headers: Vec<(String, V)>) -> (r: Vec<(String, V)>)
    ensures
        r@ == kept_headers_with_content(headers@),
{
    let ghost h0 = headers@;
    let mut out: Vec<(String, V)> = Vec::new();
    proof {
        reveal(Seq::filter);
        assert(h0.take(0) =~= Seq::<(String, V)>::empty());
    }
    for h in it: headers.into_iter()
        invariant
            it.seq() == h0,
            out@ == kept_headers_with_content(h0.take(it.index() as int)),
    {
        proof {
            reveal(Seq::filter);
            assert(h0.take(it.index() + 1).drop_last() =~= h0.take(it.index() as int));
        }
        if !is_hop_by_hop(h.0.as_str()) {
            out.push(h);
        }
    }
    proof {
        assert(h0.take(h0.len() as int) =~= h0);
    }
    out
}

} // verus!
