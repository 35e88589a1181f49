//! The `stun:` / `stuns:` URI schemes (RFC 7064/7065): recognising a
//! scheme prefix and the default port each scheme implies.  Resolving a
//! host name to an address is transport work and stays with the caller.

use vstd::prelude::*;

use crate::constant::{STUNS_PORT, STUN_PORT};

verus! {

/// Whether `p` is a prefix of `s`.
pub open spec fn has_prefix(s: Seq<char>, p: Seq<char>) -> bool {
    p.len() <= s.len() && s.subrange(0, p.len() as int) == p
}

/// Whether a URI carries the `stun:` scheme (and not `stuns:`).
pub open spec fn is_stun_uri(s: Seq<char>) -> bool {
    has_prefix(s, "stun:"@)
}

/// Whether a URI carries the `stuns:` scheme.
pub open spec fn is_stuns_uri(s: Seq<char>) -> bool {
    has_prefix(s, "stuns:"@)
}

/// Whether `uri` begins with the plain `stun:` scheme.
pub fn is_stun(uri: &str) -> (r: bool)
    ensures
        r == is_stun_uri(uri@),
{
    proof {
        reveal_strlit("stun:");
    }
    let n = uri.unicode_len();
    if n < 5 {
        return false;
    }
    let ok = uri.get_char(0) == 's' && uri.get_char(1) == 't' && uri.get_char(2) == 'u'
        && uri.get_char(3) == 'n' && uri.get_char(4) == ':';
    proof {
        let p = "stun:"@;
        if ok {
            assert(uri@.subrange(0, 5) =~= p);
        } else {
            if uri@.subrange(0, 5) == p {
                assert(uri@[0] == uri@.subrange(0, 5)[0]);
                assert(uri@[1] == uri@.subrange(0, 5)[1]);
                assert(uri@[2] == uri@.subrange(0, 5)[2]);
                assert(uri@[3] == uri@.subrange(0, 5)[3]);
                assert(uri@[4] == uri@.subrange(0, 5)[4]);
            }
        }
    }
    ok
}

/// Whether `uri` begins with the TLS `stuns:` scheme.
pub fn is_stuns(uri: &str) -> (r: bool)
    ensures
        r == is_stuns_uri(uri@),
{
    proof {
        reveal_strlit("stuns:");
    }
    let n = uri.unicode_len();
    if n < 6 {
        return false;
    }
    let ok = uri.get_char(0) == 's' && uri.get_char(1) == 't' && uri.get_char(2) == 'u'
        && uri.get_char(3) == 'n' && uri.get_char(4) == 's' && uri.get_char(5) == ':';
    proof {
        let p = "stuns:"@;
        if ok {
            assert(uri@.subrange(0, 6) =~= p);
        } else {
            if uri@.subrange(0, 6) == p {
                assert(uri@[0] == uri@.subrange(0, 6)[0]);
                assert(uri@[1] == uri@.subrange(0, 6)[1]);
                assert(uri@[2] == uri@.subrange(0, 6)[2]);
                assert(uri@[3] == uri@.subrange(0, 6)[3]);
                assert(uri@[4] == uri@.subrange(0, 6)[4]);
                assert(uri@[5] == uri@.subrange(0, 6)[5]);
            }
        }
    }
    ok
}

/// The port a URI's scheme implies when the URI names none: 5349 for
/// `stuns:`, 3478 otherwise.
pub fn default_port(uri: &str) -> (r: u16)
    ensures
        r == if is_stuns_uri(uri@) {
            STUNS_PORT
        } else {
            STUN_PORT
        },
{
    if is_stuns(uri) {
        STUNS_PORT
    } else {
        STUN_PORT
    }
}

} // verus!
