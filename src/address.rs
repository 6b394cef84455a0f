//! The text of the address the ingress listener binds.
use vstd::prelude::*;
use vstd::string::*;

verus! {

/// `ip:port`, the form in which an address and a port are parsed together.
pub open spec fn address_text(ip: Seq<char>, port: Seq<char>) -> Seq<char> {
    ip + seq![':'] + port
}

/// Joins an IP address and a port into `ip:port`.
pub fn listen_address_text(ip: &str, port: &str) -> (r: String)
    ensures
        r@ == address_text(ip@, port@),
{
    proof {
        reveal_strlit(":");
    }
    let mut r = ip.to_owned();
    r.append(":");
    r.append(port);
    assert(r@ =~= address_text(ip@, port@));
    r
}

} // verus!
