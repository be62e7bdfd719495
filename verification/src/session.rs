//! What a session is built from, stated exactly: the base URL of the
//! discovered endpoint. The transport that speaks to it lives outside;
//! the bytes it is configured with are fixed here.

use vstd::prelude::*;
use vstd::string::{StringExecFns, StrSliceExecFns};
use crate::credentials::LCUClientInfo;
use crate::strutil::{dec_digits, push_dec_u16};

verus! {

/// The base URL a discovered endpoint is reached under.
pub open spec fn base_url_of(protocol: Seq<char>, port: u16) -> Seq<char> {
    protocol + "://127.0.0.1:"@ + dec_digits(port as nat) + "/"@
}

/// Renders the base URL for discovered credentials: protocol, loopback
/// host, port, trailing slash.
pub fn client_base_url(info: &LCUClientInfo) -> (r: String)
    ensures
        r@ == base_url_of(info@.protocol, info@.port),
{
    let mut url = info.protocol.clone();
    url.append("://127.0.0.1:");
    push_dec_u16(&mut url, info.port);
    url.append("/");
    proof {
        assert(url@ =~= base_url_of(info@.protocol, info@.port));
    }
    url
}

} // verus!
