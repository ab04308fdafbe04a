use vstd::prelude::*;
use std::time::Duration;
use crate::utils::text::{decimal, u64_to_decimal};

verus! {

/// Why setting up or using the out-of-band connection failed, with the
/// details.
#[derive(Debug, Clone, PartialEq, Eq)]
pub enum ConnectionError {
    AddressResolution(String),
    ConnectionRefused(String),
    Timeout(String),
    ExchangeFailed(String),
    InvalidConfiguration(String),
    IoError(String),
    SerializationError(String),
    RdmaError(String),
}

impl ConnectionError {
    pub open spec fn spec_message(&self) -> Seq<char> {
        match self {
            ConnectionError::AddressResolution(s) => "Failed to resolve address: "@ + s@,
            ConnectionError::ConnectionRefused(s) => "Connection refused: "@ + s@,
            ConnectionError::Timeout(s) => "Timeout: "@ + s@,
            ConnectionError::ExchangeFailed(s) => "Exchange failed: "@ + s@,
            ConnectionError::InvalidConfiguration(s) => "Invalid configuration: "@ + s@,
            ConnectionError::IoError(s) => "IO error: "@ + s@,
            ConnectionError::SerializationError(s) => "Serialization error: "@ + s@,
            ConnectionError::RdmaError(s) => "RDMA error: "@ + s@,
        }
    }

    /// The error's message: its kind, a colon and the details.
    pub fn message(&self) -> (r: String)
        ensures
            r@ == self.spec_message(),
    {
        let (prefix, detail) = match self {
            ConnectionError::AddressResolution(s) => ("Failed to resolve address: ", s),
            ConnectionError::ConnectionRefused(s) => ("Connection refused: ", s),
            ConnectionError::Timeout(s) => ("Timeout: ", s),
            ConnectionError::ExchangeFailed(s) => ("Exchange failed: ", s),
            ConnectionError::InvalidConfiguration(s) => ("Invalid configuration: ", s),
            ConnectionError::IoError(s) => ("IO error: ", s),
            ConnectionError::SerializationError(s) => ("Serialization error: ", s),
            ConnectionError::RdmaError(s) => ("RDMA error: ", s),
        };
        let mut r = prefix.to_owned();
        r.append(detail.as_str());
        r
    }

    pub open spec fn connect_failed_detail(retry_count: u32, last_error: Seq<char>) -> Seq<char> {
        "Failed to connect after "@ + decimal(retry_count as nat) + " retries: "@ + last_error
    }

    /// The error of a connection that failed on every try: the number of
    /// tries and the last failure (as its `{:?}` text).
    pub fn connect_failed(retry_count: u32, last_error: &str) -> (r: ConnectionError)
        ensures
            r matches ConnectionError::ConnectionRefused(s) && s@ == Self::connect_failed_detail(
                retry_count,
                last_error@,
            ),
    {
        let mut s = "Failed to connect after ".to_owned();
        let n = u64_to_decimal(retry_count as u64);
        s.append(n.as_str());
        s.append(" retries: ");
        s.append(last_error);
        ConnectionError::ConnectionRefused(s)
    }
}

/// Which end of the connection this is.
#[derive(Debug, Clone, Copy, PartialEq, Eq, Structural)]
pub enum EndpointRole {
    Server,
    Client,
}

/// How the two ends exchange their setup data.
#[derive(Debug, Clone, Copy, PartialEq, Eq, Structural)]
pub enum ConnectionType {
    /// A TCP connection beside the RDMA one.
    Tcp,
    /// The RDMA connection manager (not available yet).
    RdmaCm,
}

/// `c` in lower case where it is an ASCII capital letter.
pub open spec fn ascii_lower(c: char) -> char {
    if 'A' <= c && c <= 'Z' { ((c as u32) + 32) as char } else { c }
}

/// `s` with its ASCII capitals in lower case.
pub open spec fn ascii_lowercase(s: Seq<char>) -> Seq<char> {
    s.map_values(|c: char| ascii_lower(c))
}

fn lowercase_ascii(s: &str) -> (r: Vec<char>)
    ensures
        r@ == ascii_lowercase(s@),
{
    let n = s.unicode_len();
    let mut r: Vec<char> = Vec::new();
    let mut i: usize = 0;
    while i < n
        invariant
            i <= n,
            n == s@.len(),
            r@ == ascii_lowercase(s@.take(i as int)),
        decreases n - i,
    {
        let c = s.get_char(i);
        let l = if 'A' <= c && c <= 'Z' { ((c as u8) + 32) as char } else { c };
        r.push(l);
        i = i + 1;
        assert(r@ =~= ascii_lowercase(s@.take(i as int)));
    }
    assert(s@.take(n as int) =~= s@);
    r
}

fn chars_equal(a: &Vec<char>, b: &str) -> (r: bool)
    ensures
        r == (a@ == b@),
{
    let n = b.unicode_len();
    if a.len() != n {
        return false;
    }
    let mut i: usize = 0;
    while i < n
        invariant
            i <= n,
            n == b@.len(),
            a@.len() == n,
            a@.take(i as int) == b@.take(i as int),
        decreases n - i,
    {
        if a[i] != b.get_char(i) {
            assert(a@[i as int] != b@[i as int]);
            return false;
        }
        i = i + 1;
        assert(a@.take(i as int) =~= b@.take(i as int));
    }
    assert(a@.take(n as int) =~= a@);
    assert(b@.take(n as int) =~= b@);
    true
}

impl ConnectionType {
    pub open spec fn name(&self) -> Seq<char> {
        match self {
            ConnectionType::Tcp => "tcp"@,
            ConnectionType::RdmaCm => "rdmacm"@,
        }
    }

    /// The type's name.
    pub fn as_str(&self) -> (r: &'static str)
        ensures
            r@ == self.name(),
    {
        match self {
            ConnectionType::Tcp => "tcp",
            ConnectionType::RdmaCm => "rdmacm",
        }
    }

    /// The type a name stands for, whatever the case of its letters:
    /// "tcp", or "rdmacm", "rdma_cm" and "rdma-cm"; any other name is an
    /// invalid configuration.
    pub fn from_name(s: &str) -> (r: Result<ConnectionType, ConnectionError>)
        ensures
            ascii_lowercase(s@) == "tcp"@ ==> r == Ok::<ConnectionType, ConnectionError>(ConnectionType::Tcp),
            (ascii_lowercase(s@) == "rdmacm"@ || ascii_lowercase(s@) == "rdma_cm"@ || ascii_lowercase(s@)
                == "rdma-cm"@) ==> r == Ok::<ConnectionType, ConnectionError>(ConnectionType::RdmaCm),
            !(ascii_lowercase(s@) == "tcp"@ || ascii_lowercase(s@) == "rdmacm"@ || ascii_lowercase(s@)
                == "rdma_cm"@ || ascii_lowercase(s@) == "rdma-cm"@) ==> (r matches Err(
                ConnectionError::InvalidConfiguration(m),
            ) && m@ == "Unknown connection type: '"@ + s@ + "'"@),
    {
        let lower = lowercase_ascii(s);
        proof {
            reveal_strlit("tcp");
            reveal_strlit("rdmacm");
            reveal_strlit("rdma_cm");
            reveal_strlit("rdma-cm");
            assert("tcp"@.len() == 3);
            assert("rdmacm"@.len() == 6);
            assert("rdma_cm"@.len() == 7);
            assert("rdma-cm"@.len() == 7);
        }
        if chars_equal(&lower, "tcp") {
            Ok(ConnectionType::Tcp)
        } else if chars_equal(&lower, "rdmacm") || chars_equal(&lower, "rdma_cm") || chars_equal(
            &lower,
            "rdma-cm",
        ) {
            Ok(ConnectionType::RdmaCm)
        } else {
            let mut m = "Unknown connection type: '".to_owned();
            m.append(s);
            m.append("'");
            Err(ConnectionError::InvalidConfiguration(m))
        }
    }
}

impl std::str::FromStr for ConnectionType {
    type Err = ConnectionError;

    /// As `ConnectionType::from_name`.
    fn from_str(s: &str) -> (r: Result<ConnectionType, ConnectionError>)
        ensures
            ascii_lowercase(s@) == "tcp"@ ==> r == Ok::<ConnectionType, ConnectionError>(ConnectionType::Tcp),
            (ascii_lowercase(s@) == "rdmacm"@ || ascii_lowercase(s@) == "rdma_cm"@ || ascii_lowercase(s@)
                == "rdma-cm"@) ==> r == Ok::<ConnectionType, ConnectionError>(ConnectionType::RdmaCm),
            !(ascii_lowercase(s@) == "tcp"@ || ascii_lowercase(s@) == "rdmacm"@ || ascii_lowercase(s@)
                == "rdma_cm"@ || ascii_lowercase(s@) == "rdma-cm"@) ==> (r matches Err(
                ConnectionError::InvalidConfiguration(m),
            ) && m@ == "Unknown connection type: '"@ + s@ + "'"@),
    {
        ConnectionType::from_name(s)
    }
}

/// The duration that `Duration::from_secs` makes of a number of seconds.
pub uninterp spec fn secs_duration(secs: u64) -> Duration;

/// `Duration::from_secs`: the duration of `secs` seconds, named by
/// `secs_duration` (a `Duration` is opaque here, so nothing more is stated).
#[verifier::external_body]
fn duration_from_secs(secs: u64) -> (r: Duration)
    ensures
        r == secs_duration(secs),
{
    Duration::from_secs(secs)
}

/// Parameters of the out-of-band connection.
#[derive(Debug)]
pub struct ConnectionParams {
    pub timeout: Duration,
    pub retry_count: u32,
    pub private_data: Option<Vec<u8>>,
    pub role: EndpointRole,
    pub port: u16,
}

impl Default for ConnectionParams {
    /// A client on port 18515 that tries three times, waiting ten seconds
    /// each time.
    fn default() -> (r: ConnectionParams)
        ensures
            r.timeout == secs_duration(10),
            r.retry_count == 3,
            r.private_data is None,
            r.role == EndpointRole::Client,
            r.port == 18515,
    {
        ConnectionParams {
            timeout: duration_from_secs(10),
            retry_count: 3,
            private_data: None,
            role: EndpointRole::Client,
            port: 18515,
        }
    }
}

/// Queue pair data exchanged when connecting.
#[derive(Debug)]
pub struct ExchangeData {
    pub qp_num: u32,
    pub lid: u16,
    pub gid: Option<[u8; 16]>,
    pub psn: u32,
}

/// Identifier of an accepted connection.
#[derive(Debug, Clone, Copy, Hash, PartialEq, Eq, Structural)]
pub struct ConnectionId(pub u64);

/// Whether to try connecting again after `retries` failed tries out of
/// `retry_count`.
pub fn should_retry(retries: u32, retry_count: u32) -> (r: bool)
    ensures
        r == (retries < retry_count),
{
    retries < retry_count
}

/// Milliseconds to wait after the `retries`-th failed try: 100 for each try
/// so far.
pub fn retry_delay_ms(retries: u32) -> (r: u64)
    requires
        100 * retries <= u32::MAX,
    ensures
        r == 100 * retries,
{
    (100 * retries) as u64
}

/// Checks that a connection of `conn_type` can be made: only TCP is
/// available.
pub fn check_connection_type(conn_type: ConnectionType) -> (r: Result<(), ConnectionError>)
    ensures
        conn_type == ConnectionType::Tcp ==> r is Ok,
        conn_type == ConnectionType::RdmaCm ==> (r matches Err(ConnectionError::InvalidConfiguration(m)) && m@
            == "RDMA CM not implemented yet"@),
{
    match conn_type {
        ConnectionType::Tcp => Ok(()),
        ConnectionType::RdmaCm => Err(ConnectionError::InvalidConfiguration("RDMA CM not implemented yet".to_owned())),
    }
}

} // verus!
