use vstd::prelude::*;

verus! {

/// Path MTU of a queue pair.
#[derive(Clone, Copy, Debug, PartialEq, Eq, Structural)]
pub enum Mtu {
    Mtu256,
    Mtu512,
    Mtu1024,
    Mtu2048,
    Mtu4096,
}

/// Size in bytes of an MTU.
pub open spec fn spec_mtu_value(mtu: Mtu) -> u32 {
    match mtu {
        Mtu::Mtu256 => 256,
        Mtu::Mtu512 => 512,
        Mtu::Mtu1024 => 1024,
        Mtu::Mtu2048 => 2048,
        Mtu::Mtu4096 => 4096,
    }
}

/// The smallest MTU that holds `value` bytes, or the largest MTU when none does.
pub open spec fn spec_value_to_mtu(value: u32) -> Mtu {
    if value <= 256 {
        Mtu::Mtu256
    } else if value <= 512 {
        Mtu::Mtu512
    } else if value <= 1024 {
        Mtu::Mtu1024
    } else if value <= 2048 {
        Mtu::Mtu2048
    } else {
        Mtu::Mtu4096
    }
}

/// Converts an MTU to its size in bytes.
pub fn mtu_to_value(mtu: Mtu) -> (r: u32)
    ensures
        r == spec_mtu_value(mtu),
{
    match mtu {
        Mtu::Mtu256 => 256,
        Mtu::Mtu512 => 512,
        Mtu::Mtu1024 => 1024,
        Mtu::Mtu2048 => 2048,
        Mtu::Mtu4096 => 4096,
    }
}

/// Converts a size in bytes to the smallest MTU that holds it (sizes above
/// 2048 give the largest MTU).
pub fn value_to_mtu(value: u32) -> (r: Mtu)
    ensures
        r == spec_value_to_mtu(value),
{
    if value <= 256 {
        Mtu::Mtu256
    } else if value <= 512 {
        Mtu::Mtu512
    } else if value <= 1024 {
        Mtu::Mtu1024
    } else if value <= 2048 {
        Mtu::Mtu2048
    } else {
        Mtu::Mtu4096
    }
}

/// Negotiates the requested MTU against the largest one the port supports:
/// the requested MTU when it fits, else the maximum, together with whether
/// the MTU was downgraded. The device name and port only identify the
/// negotiation.
pub fn negotiate_mtu(requested_mtu: Mtu, max_supported_mtu: Mtu, device_name: &str, port_num: u8) -> (r: (Mtu, bool))
    ensures
        r.1 == (spec_mtu_value(requested_mtu) > spec_mtu_value(max_supported_mtu)),
        r.0 == if r.1 { max_supported_mtu } else { requested_mtu },
{
    let requested_value = mtu_to_value(requested_mtu);
    let max_value = mtu_to_value(max_supported_mtu);
    if requested_value <= max_value {
        (requested_mtu, false)
    } else {
        (max_supported_mtu, true)
    }
}

/// Converting an MTU to bytes and back gives the same MTU.
pub proof fn lemma_mtu_value_roundtrip(mtu: Mtu)
    ensures
        spec_value_to_mtu(spec_mtu_value(mtu)) == mtu,
{
}

/// For sizes up to 4096 bytes the chosen MTU holds the size, and no smaller MTU does.
pub proof fn lemma_value_to_mtu_smallest_fit(value: u32, other: Mtu)
    requires
        value <= 4096,
    ensures
        spec_mtu_value(spec_value_to_mtu(value)) >= value,
        spec_mtu_value(other) >= value ==> spec_mtu_value(other) >= spec_mtu_value(spec_value_to_mtu(value)),
{
}

/// The negotiated MTU is the smaller of the two, and never exceeds the port's maximum.
pub proof fn lemma_negotiated_is_minimum(requested_mtu: Mtu, max_supported_mtu: Mtu)
    ensures
        ({
            let downgraded = spec_mtu_value(requested_mtu) > spec_mtu_value(max_supported_mtu);
            let negotiated = if downgraded { max_supported_mtu } else { requested_mtu };
            &&& spec_mtu_value(negotiated) <= spec_mtu_value(max_supported_mtu)
            &&& spec_mtu_value(negotiated) <= spec_mtu_value(requested_mtu)
            &&& (spec_mtu_value(negotiated) == spec_mtu_value(max_supported_mtu) || spec_mtu_value(negotiated)
                == spec_mtu_value(requested_mtu))
        }),
{
}

} // verus!
