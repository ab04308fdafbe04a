use vstd::prelude::*;
use crate::utils::mtu::Mtu;
use crate::utils::text::{hex_char, push_char};

verus! {

/// Global identifier of a port (16 raw bytes).
#[derive(Clone, Copy, Debug)]
pub struct Gid {
    pub raw: [u8; 16],
}

/// Kind of a GID table entry.
#[derive(Clone, Copy, Debug, PartialEq, Eq, Structural)]
pub enum GidType {
    InfiniBand,
    RoceV1,
    RoceV2,
}

impl Gid {
    /// The all-zero GID.
    pub fn zero() -> (r: Gid)
        ensures
            forall|i: int| 0 <= i < 16 ==> r.raw@[i] == 0,
    {
        Gid { raw: [0u8; 16] }
    }
}

/// Two lower-case hex digits of a byte.
pub open spec fn byte_hex(b: u8) -> Seq<char> {
    seq![hex_char((b / 16) as nat), hex_char((b % 16) as nat)]
}

/// Text of the first `n` bytes of a GID: two hex digits per byte and a colon
/// before every even byte after the first.
pub open spec fn gid_text_prefix(raw: Seq<u8>, n: nat) -> Seq<char>
    decreases n,
{
    if n == 0 {
        Seq::empty()
    } else {
        let k = (n - 1) as nat;
        let sep: Seq<char> = if k > 0 && k % 2 == 0 { seq![':'] } else { Seq::empty() };
        gid_text_prefix(raw, k) + sep + byte_hex(raw[k as int])
    }
}

/// Text of a GID: eight colon-separated groups of four hex digits.
pub open spec fn gid_text(g: Gid) -> Seq<char> {
    gid_text_prefix(g.raw@, 16)
}

fn hex_digit(d: u8) -> (c: char)
    requires
        d < 16,
    ensures
        c == hex_char(d as nat),
{
    if d < 10 { (('0' as u8) + d) as char } else { (('a' as u8) + (d - 10)) as char }
}

/// Appends the text of a GID (as its `Display`).
pub fn push_gid(out: &mut String, g: &Gid)
    ensures
        final(out)@ == old(out)@ + gid_text(*g),
{
    let ghost s0 = out@;
    let mut i: usize = 0;
    while i < 16
        invariant
            i <= 16,
            out@ == s0 + gid_text_prefix(g.raw@, i as nat),
        decreases 16 - i,
    {
        let b = g.raw[i];
        if i > 0 && i % 2 == 0 {
            push_char(out, ':');
        }
        push_char(out, hex_digit(b / 16));
        push_char(out, hex_digit(b % 16));
        i = i + 1;
        proof {
            let k = (i - 1) as nat;
            let sep: Seq<char> = if k > 0 && k % 2 == 0 { seq![':'] } else { Seq::empty() };
            assert(gid_text_prefix(g.raw@, i as nat) == gid_text_prefix(g.raw@, k) + sep + byte_hex(g.raw@[k as int]));
            assert(out@ =~= s0 + gid_text_prefix(g.raw@, i as nat));
        }
    }
}

/// The type name of a GID kind (as its `Debug`).
pub open spec fn gid_type_name(t: GidType) -> Seq<char> {
    match t {
        GidType::InfiniBand => "InfiniBand"@,
        GidType::RoceV1 => "RoceV1"@,
        GidType::RoceV2 => "RoceV2"@,
    }
}

pub fn gid_type_str(t: GidType) -> (r: &'static str)
    ensures
        r@ == gid_type_name(t),
{
    match t {
        GidType::InfiniBand => "InfiniBand",
        GidType::RoceV1 => "RoceV1",
        GidType::RoceV2 => "RoceV2",
    }
}

/// Queue pair information that the two ends exchange.
#[derive(Clone, Copy, Debug)]
pub struct DestinationInfo {
    pub lid: u32,
    pub mtu: Mtu,
    pub qp_number: u32,
    pub psn: u32,
    pub gid: Gid,
    pub gid_type: GidType,
    pub gid_index: u8,
}

/// MTU validated by one end.
#[derive(Clone, Copy, Debug)]
pub struct MtuNegotiationInfo {
    pub validated_mtu: Mtu,
}

impl MtuNegotiationInfo {
    pub fn new(validated_mtu: Mtu) -> (r: Self)
        ensures
            r.validated_mtu == validated_mtu,
    {
        MtuNegotiationInfo { validated_mtu }
    }
}

/// A memory region that the peer may access.
#[derive(Clone, Copy, Debug)]
pub struct MemoryRegionInfo {
    /// Base address.
    pub addr: u64,
    /// Remote key.
    pub rkey: u32,
    /// Length in bytes.
    pub size: usize,
}

/// Kind of test whose results are exchanged.
#[derive(Clone, Copy, Debug, PartialEq, Eq, Structural)]
pub enum TestType {
    Bandwidth,
    Latency,
}

/// Queue pair numbers and packet sequence numbers of one connected queue pair.
#[derive(Clone, Debug)]
pub struct QueuePairConnection {
    pub local_qpn: u32,
    pub local_psn: u32,
    pub remote_qpn: u32,
    pub remote_psn: u32,
}

/// Outcome of connection setup.
pub struct ConnectionSetupResult {
    pub remote_mr: MemoryRegionInfo,
    pub gid_type: GidType,
    pub local_gid: Gid,
    pub remote_gid: Gid,
    pub actual_mtu: u32,
    pub qp_details: Vec<QueuePairConnection>,
}

} // verus!
