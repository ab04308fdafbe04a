use vstd::prelude::*;
use crate::connection::exchange::{DestinationInfo, MemoryRegionInfo};
use crate::connection::types::ConnectionError;

verus! {

/// The connection thread's answer to a command; `R` is the test results
/// type.
#[derive(Debug)]
pub enum ConnectionResponse<R> {
    Success,
    QpInfoExchanged(DestinationInfo),
    MemoryRegionExchanged(MemoryRegionInfo),
    ResultsReceived(R),
    Error(ConnectionError),
}

/// The error for an answer of the wrong kind.
fn unexpected() -> (r: ConnectionError)
    ensures
        r matches ConnectionError::InvalidConfiguration(m) && m@ == "Unexpected response"@,
{
    ConnectionError::InvalidConfiguration("Unexpected response".to_owned())
}

impl<R> ConnectionResponse<R> {
    /// The outcome of a command answered by plain success: the error it
    /// reported, or an unexpected-response error for any other answer.
    pub fn expect_success(self) -> (r: Result<(), ConnectionError>)
        ensures
            self is Success ==> r is Ok,
            self matches ConnectionResponse::Error(e) ==> r == Err::<(), ConnectionError>(e),
            !(self is Success || self is Error) ==> (r matches Err(ConnectionError::InvalidConfiguration(m)) && m@
                == "Unexpected response"@),
    {
        match self {
            ConnectionResponse::Success => Ok(()),
            ConnectionResponse::Error(e) => Err(e),
            _ => Err(unexpected()),
        }
    }

    /// The peer's queue pair data of a queue pair exchange.
    pub fn expect_qp_info(self) -> (r: Result<DestinationInfo, ConnectionError>)
        ensures
            self matches ConnectionResponse::QpInfoExchanged(d) ==> r == Ok::<DestinationInfo, ConnectionError>(d),
            self matches ConnectionResponse::Error(e) ==> r == Err::<DestinationInfo, ConnectionError>(e),
            !(self is QpInfoExchanged || self is Error) ==> (r matches Err(ConnectionError::InvalidConfiguration(m))
                && m@ == "Unexpected response"@),
    {
        match self {
            ConnectionResponse::QpInfoExchanged(d) => Ok(d),
            ConnectionResponse::Error(e) => Err(e),
            _ => Err(unexpected()),
        }
    }

    /// The peer's memory region of a memory region exchange.
    pub fn expect_memory_region(self) -> (r: Result<MemoryRegionInfo, ConnectionError>)
        ensures
            self matches ConnectionResponse::MemoryRegionExchanged(m) ==> r == Ok::<MemoryRegionInfo, ConnectionError>(
                m,
            ),
            self matches ConnectionResponse::Error(e) ==> r == Err::<MemoryRegionInfo, ConnectionError>(e),
            !(self is MemoryRegionExchanged || self is Error) ==> (r matches Err(
                ConnectionError::InvalidConfiguration(m),
            ) && m@ == "Unexpected response"@),
    {
        match self {
            ConnectionResponse::MemoryRegionExchanged(m) => Ok(m),
            ConnectionResponse::Error(e) => Err(e),
            _ => Err(unexpected()),
        }
    }

    /// The peer's results of a results request.
    pub fn expect_results(self) -> (r: Result<R, ConnectionError>)
        ensures
            self matches ConnectionResponse::ResultsReceived(x) ==> r == Ok::<R, ConnectionError>(x),
            self matches ConnectionResponse::Error(e) ==> r == Err::<R, ConnectionError>(e),
            !(self is ResultsReceived || self is Error) ==> (r matches Err(ConnectionError::InvalidConfiguration(m))
                && m@ == "Unexpected response"@),
    {
        match self {
            ConnectionResponse::ResultsReceived(x) => Ok(x),
            ConnectionResponse::Error(e) => Err(e),
            _ => Err(unexpected()),
        }
    }
}

} // verus!
