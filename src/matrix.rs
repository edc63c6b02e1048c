//! Matrix user identifiers of the home server: `@localpart:server`.

use vstd::prelude::*;

pub mod mock;

verus! {

/// The identifier of `localpart` on `homeserver`.
pub open spec fn mxid_of(homeserver: Seq<char>, localpart: Seq<char>) -> Seq<char> {
    "@"@ + localpart + ":"@ + homeserver
}

/// The localpart of `mxid` when it is an identifier on `homeserver`.
pub open spec fn localpart_of(homeserver: Seq<char>, mxid: Seq<char>) -> Option<Seq<char>> {
    let n = mxid.len();
    let h = homeserver.len();
    if n >= h + 2 && mxid[0] == '@' && mxid.subrange(n - h, n as int) == homeserver && mxid[n - h - 1] == ':' {
        Some(mxid.subrange(1, n - h - 1))
    } else {
        None
    }
}

/// The identifier of `localpart` on `homeserver`.
pub fn mxid(homeserver: &str, localpart: &str) -> (r: String)
    ensures
        r@ == mxid_of(homeserver@, localpart@),
{
    let mut out = String::from_str("@");
    out.append(localpart);
    out.append(":");
    out.append(homeserver);
    out
}

/// The localpart of `mxid` when it is an identifier on `homeserver`.
pub fn localpart<'a>(homeserver: &str, mxid: &'a str) -> (r: Option<&'a str>)
    ensures
        r matches Some(l) ==> localpart_of(homeserver@, mxid@) == Some(l@),
        r is None ==> localpart_of(homeserver@, mxid@) is None,
{
    let n = mxid.unicode_len();
    let h = homeserver.unicode_len();
    if n < 2 || n - 2 < h {
        return None;
    }
    if mxid.get_char(0) != '@' {
        return None;
    }
    let tail = mxid.substring_char(n - h, n);
    if !crate::text::str_eq(tail, homeserver) {
        return None;
    }
    if mxid.get_char(n - h - 1) != ':' {
        return None;
    }
    Some(mxid.substring_char(1, n - h - 1))
}

/// The localpart of an identifier built on a server is the one it was built from.
pub proof fn lemma_localpart_of_mxid(homeserver: Seq<char>, localpart: Seq<char>)
    ensures
        localpart_of(homeserver, mxid_of(homeserver, localpart)) == Some(localpart),
{
    reveal_strlit("@");
    reveal_strlit(":");
    let m = mxid_of(homeserver, localpart);
    let n = m.len();
    let h = homeserver.len();
    assert(m.subrange(n - h, n as int) =~= homeserver);
    assert(m.subrange(1, n - h - 1) =~= localpart);
}

} // verus!
