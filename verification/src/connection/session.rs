use vstd::prelude::*;
use crate::connection::exchange::{DestinationInfo, Gid, GidType};
use crate::utils::mtu::Mtu;

verus! {

/// Whether an endpoint address means listening on every interface:
/// "0.0.0.0" with or without a port.
pub open spec fn spec_is_server_address(address: Seq<char>) -> bool {
    address == "0.0.0.0"@ || (address.len() >= 8 && address.take(8) == "0.0.0.0:"@)
}

fn prefix_matches(s: &str, t: &str, k: usize) -> (r: bool)
    requires
        k <= s@.len(),
        k <= t@.len(),
    ensures
        r == (s@.take(k as int) == t@.take(k as int)),
{
    let mut i: usize = 0;
    while i < k
        invariant
            i <= k,
            k <= s@.len(),
            k <= t@.len(),
            s@.take(i as int) == t@.take(i as int),
        decreases k - i,
    {
        if s.get_char(i) != t.get_char(i) {
            assert(s@.take(k as int)[i as int] != t@.take(k as int)[i as int]);
            return false;
        }
        i = i + 1;
        assert(s@.take(i as int) =~= t@.take(i as int));
    }
    true
}

/// Whether the session at `address` is the listening (server) end.
pub fn is_server_address(address: &str) -> (r: bool)
    ensures
        r == spec_is_server_address(address@),
{
    let wildcard = "0.0.0.0:";
    proof {
        reveal_strlit("0.0.0.0");
        reveal_strlit("0.0.0.0:");
        assert("0.0.0.0"@ =~= "0.0.0.0:"@.take(7));
        assert(wildcard@.take(8) =~= wildcard@);
    }
    let n = address.unicode_len();
    if n == 7 {
        proof {
            assert(address@.take(7) =~= address@);
        }
        return prefix_matches(address, wildcard, 7);
    }
    if n < 8 {
        return false;
    }
    prefix_matches(address, wildcard, 8)
}

/// The queue pair data that marks the synchronisation before a message
/// size's test: the size in the LID, queue pair number and PSN fields.
pub fn sync_destination(msg_size: u32, mtu: Mtu, gid: Gid, gid_type: GidType, gid_index: u8) -> (r: DestinationInfo)
    ensures
        r.lid == msg_size,
        r.qp_number == msg_size,
        r.psn == msg_size,
        r.mtu == mtu,
        r.gid == gid,
        r.gid_type == gid_type,
        r.gid_index == gid_index,
{
    DestinationInfo { lid: msg_size, mtu, qp_number: msg_size, psn: msg_size, gid, gid_type, gid_index }
}

} // verus!
