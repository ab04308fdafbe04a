pub mod exchange;
pub mod framing;
pub mod session;
pub mod threaded;
pub mod types;

pub use types::{
    ConnectionError, ConnectionId, ConnectionParams, ConnectionType, EndpointRole, ExchangeData,
};
