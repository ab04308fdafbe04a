use vstd::prelude::*;
use crate::utils::display::TestType;
use crate::utils::text::{decimal, push_str, u64_to_decimal};

verus! {

/// `sub` occurs in `s`.
pub open spec fn contains_text(s: Seq<char>, sub: Seq<char>) -> bool {
    exists|i: int| 0 <= i && i + sub.len() <= s.len() && #[trigger] s.subrange(i, i + sub.len()) == sub
}

fn matches_at(s: &str, sub: &str, i: usize) -> (r: bool)
    requires
        i + sub@.len() <= s@.len(),
    ensures
        r == (s@.subrange(i as int, i + sub@.len()) == sub@),
{
    let m = sub.unicode_len();
    let n = s.unicode_len();
    let mut j: usize = 0;
    while j < m
        invariant
            j <= m,
            m == sub@.len(),
            n == s@.len(),
            i + m <= s@.len(),
            s@.subrange(i as int, i + j) == sub@.take(j as int),
        decreases m - j,
    {
        if s.get_char(i + j) != sub.get_char(j) {
            assert(s@.subrange(i as int, i + m)[j as int] != sub@[j as int]);
            return false;
        }
        j = j + 1;
        assert(s@.subrange(i as int, i + j) =~= sub@.take(j as int));
    }
    assert(sub@.take(m as int) =~= sub@);
    true
}

/// Whether `sub` occurs in `s` (as `str::contains`).
pub fn text_contains(s: &str, sub: &str) -> (r: bool)
    ensures
        r == contains_text(s@, sub@),
{
    let n = s.unicode_len();
    let m = sub.unicode_len();
    if m > n {
        return false;
    }
    if m == 0 {
        assert(s@.subrange(0int, 0int + sub@.len()) =~= sub@);
        return true;
    }
    let mut i: usize = 0;
    while i <= n - m
        invariant
            0 < m <= n,
            n == s@.len(),
            m == sub@.len(),
            forall|k: int| 0 <= k < i ==> #[trigger] s@.subrange(k, k + m) != sub@,
        decreases n - m + 1 - i,
    {
        if matches_at(s, sub, i) {
            return true;
        }
        i = i + 1;
    }
    false
}

/// The test an operation's name stands for: SEND, WRITE, or else READ, in
/// its latency form when the name says "latency".
pub open spec fn spec_test_type_of_name(name: Seq<char>) -> TestType {
    let latency = contains_text(name, "latency"@);
    if contains_text(name, "SEND"@) {
        if latency { TestType::SendLatency } else { TestType::SendBandwidth }
    } else if contains_text(name, "WRITE"@) {
        if latency { TestType::WriteLatency } else { TestType::WriteBandwidth }
    } else {
        if latency { TestType::ReadLatency } else { TestType::ReadBandwidth }
    }
}

/// The report's test type of a command by its operation name.
pub fn test_type_of_name(name: &str) -> (r: TestType)
    ensures
        r == spec_test_type_of_name(name@),
{
    let latency = text_contains(name, "latency");
    if text_contains(name, "SEND") {
        if latency { TestType::SendLatency } else { TestType::SendBandwidth }
    } else if text_contains(name, "WRITE") {
        if latency { TestType::WriteLatency } else { TestType::WriteBandwidth }
    } else {
        if latency { TestType::ReadLatency } else { TestType::ReadBandwidth }
    }
}

/// Port the control connection uses when none is given.
pub const DEFAULT_PORT: u16 = 18515;

/// The address of the control connection: a server listens on every
/// interface, a client connects to its target (localhost by default); both
/// on the given port or the default one.
pub open spec fn spec_endpoint_address(server: bool, target: Option<Seq<char>>, port: Option<u16>) -> Seq<char> {
    let p = match port {
        Some(p) => p,
        None => DEFAULT_PORT,
    };
    let host = if server {
        "0.0.0.0"@
    } else {
        match target {
            Some(t) => t,
            None => "127.0.0.1"@,
        }
    };
    host + ":"@ + decimal(p as nat)
}

/// The control connection's address.
pub fn endpoint_address(server: bool, target: Option<&str>, port: Option<u16>) -> (r: String)
    ensures
        r@ == spec_endpoint_address(
            server,
            match target {
                Some(t) => Some(t@),
                None => None,
            },
            port,
        ),
{
    let p = match port {
        Some(p) => p,
        None => DEFAULT_PORT,
    };
    let host = if server {
        "0.0.0.0"
    } else {
        match target {
            Some(t) => t,
            None => "127.0.0.1",
        }
    };
    let mut out = String::new();
    push_str(&mut out, host);
    push_str(&mut out, ":");
    let digits = u64_to_decimal(p as u64);
    push_str(&mut out, digits.as_str());
    out
}

/// Local and remote buffer offsets of the `iteration`-th request of a
/// simple bandwidth run: requests cycle through `tx_depth` slots of
/// `msg_size` bytes, and the remote offset wraps at the remote region's size.
pub fn request_offsets(iteration: u32, tx_depth: u32, msg_size: u32, remote_size: usize) -> (r: (usize, usize))
    requires
        tx_depth > 0,
        remote_size > 0,
        (iteration % tx_depth) * msg_size <= usize::MAX,
    ensures
        r.0 == (iteration % tx_depth) * msg_size,
        r.1 == r.0 % remote_size,
{
    let offset = (iteration % tx_depth) as usize * msg_size as usize;
    (offset, offset % remote_size)
}

} // verus!
