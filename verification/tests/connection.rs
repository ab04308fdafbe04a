use std::time::Duration;

use stride::connection::exchange::{DestinationInfo, Gid, GidType, MemoryRegionInfo};
use stride::connection::framing::{decode_length, encode_frame, encode_length, frame_payload_len};
use stride::connection::session::{is_server_address, sync_destination};
use stride::connection::threaded::ConnectionResponse;
use stride::connection::types::{
    check_connection_type, retry_delay_ms, should_retry,
};
use stride::connection::{ConnectionError, ConnectionId, ConnectionParams, ConnectionType, EndpointRole};
use stride::utils::mtu::Mtu;

#[test]
fn connection_type_names() {
    assert_eq!(ConnectionType::Tcp.as_str(), "tcp");
    assert_eq!(ConnectionType::RdmaCm.as_str(), "rdmacm");
}

#[test]
fn connection_type_from_names() {
    assert_eq!(ConnectionType::from_name("tcp"), Ok(ConnectionType::Tcp));
    assert_eq!(ConnectionType::from_name("TCP"), Ok(ConnectionType::Tcp));
    assert_eq!(ConnectionType::from_name("RdmaCm"), Ok(ConnectionType::RdmaCm));
    assert_eq!(ConnectionType::from_name("rdma_cm"), Ok(ConnectionType::RdmaCm));
    assert_eq!(ConnectionType::from_name("RDMA-CM"), Ok(ConnectionType::RdmaCm));
    assert_eq!(
        ConnectionType::from_name("udp"),
        Err(ConnectionError::InvalidConfiguration("Unknown connection type: 'udp'".to_string()))
    );
    assert_eq!("Tcp".parse::<ConnectionType>(), Ok(ConnectionType::Tcp));
    assert!("tcp ".parse::<ConnectionType>().is_err());
}

#[test]
fn connection_error_messages() {
    assert_eq!(
        ConnectionError::Timeout("Connection operation timed out".to_string()).message(),
        "Timeout: Connection operation timed out"
    );
    assert_eq!(ConnectionError::IoError("broken pipe".to_string()).message(), "IO error: broken pipe");
    assert_eq!(
        ConnectionError::AddressResolution("x".to_string()).message(),
        "Failed to resolve address: x"
    );
    let e = ConnectionError::connect_failed(3, "Some(refused)");
    assert_eq!(
        e,
        ConnectionError::ConnectionRefused("Failed to connect after 3 retries: Some(refused)".to_string())
    );
    assert_eq!(
        e.message(),
        "Connection refused: Failed to connect after 3 retries: Some(refused)"
    );
}

#[test]
fn default_params() {
    let p = ConnectionParams::default();
    assert_eq!(p.retry_count, 3);
    assert_eq!(p.port, 18515);
    assert_eq!(p.role, EndpointRole::Client);
    assert!(p.private_data.is_none());
    assert_eq!(p.timeout, Duration::from_secs(10));
}

#[test]
fn retries_and_delays() {
    assert!(should_retry(0, 3));
    assert!(should_retry(2, 3));
    assert!(!should_retry(3, 3));
    assert_eq!(retry_delay_ms(1), 100);
    assert_eq!(retry_delay_ms(3), 300);
    assert_eq!(retry_delay_ms(0), 0);
}

#[test]
fn only_tcp_is_available() {
    assert_eq!(check_connection_type(ConnectionType::Tcp), Ok(()));
    assert_eq!(
        check_connection_type(ConnectionType::RdmaCm),
        Err(ConnectionError::InvalidConfiguration("RDMA CM not implemented yet".to_string()))
    );
}

#[test]
fn frames_carry_length_then_payload() {
    assert_eq!(encode_frame(&[1, 2, 3]), vec![3, 0, 0, 0, 0, 0, 0, 0, 1, 2, 3]);
    assert_eq!(encode_frame(&[]), vec![0u8; 8]);
    let payload = vec![7u8; 300];
    let f = encode_frame(&payload);
    let mut header = [0u8; 8];
    header.copy_from_slice(&f[..8]);
    assert_eq!(frame_payload_len(&header), 300);
    assert_eq!(&f[8..], &payload[..]);
}

#[test]
fn length_header_roundtrip() {
    for n in [0u64, 1, 255, 256, 10000, 0x0102_0304_0506_0708, u64::MAX] {
        assert_eq!(encode_length(n), n.to_le_bytes());
        assert_eq!(decode_length(&encode_length(n)), n);
    }
    assert_eq!(decode_length(&[0x10, 0x27, 0, 0, 0, 0, 0, 0]), 10000);
}

#[test]
fn server_addresses() {
    assert!(is_server_address("0.0.0.0"));
    assert!(is_server_address("0.0.0.0:18515"));
    assert!(is_server_address("0.0.0.0:"));
    assert!(!is_server_address("0.0.0.01"));
    assert!(!is_server_address("10.0.0.1:18515"));
    assert!(!is_server_address(""));
    assert!(!is_server_address("0.0.0."));
}

#[test]
fn sync_marker_carries_message_size() {
    let g = Gid { raw: [0u8; 16] };
    let d = sync_destination(4096, Mtu::Mtu1024, g, GidType::RoceV2, 3);
    assert_eq!(d.lid, 4096);
    assert_eq!(d.qp_number, 4096);
    assert_eq!(d.psn, 4096);
    assert_eq!(d.mtu, Mtu::Mtu1024);
    assert_eq!(d.gid_type, GidType::RoceV2);
    assert_eq!(d.gid_index, 3);
}

fn dest() -> DestinationInfo {
    DestinationInfo {
        lid: 1,
        mtu: Mtu::Mtu4096,
        qp_number: 0x11,
        psn: 0x22,
        gid: Gid { raw: [1u8; 16] },
        gid_type: GidType::InfiniBand,
        gid_index: 0,
    }
}

#[test]
fn thread_responses() {
    assert_eq!(ConnectionResponse::<u32>::Success.expect_success(), Ok(()));
    let unexpected = Err(ConnectionError::InvalidConfiguration("Unexpected response".to_string()));
    assert_eq!(ConnectionResponse::<u32>::ResultsReceived(5).expect_success(), unexpected);
    let d = ConnectionResponse::<u32>::QpInfoExchanged(dest()).expect_qp_info().unwrap();
    assert_eq!(d.qp_number, 0x11);
    assert!(ConnectionResponse::<u32>::Success.expect_qp_info().is_err());
    let mr = MemoryRegionInfo { addr: 0x1000, rkey: 7, size: 64 };
    let got = ConnectionResponse::<u32>::MemoryRegionExchanged(mr).expect_memory_region().unwrap();
    assert_eq!((got.addr, got.rkey, got.size), (0x1000, 7, 64));
    assert_eq!(ConnectionResponse::<u32>::ResultsReceived(9).expect_results(), Ok(9));
    let e = ConnectionError::Timeout("t".to_string());
    assert_eq!(ConnectionResponse::<u32>::Error(e.clone()).expect_results(), Err(e.clone()));
    assert_eq!(ConnectionResponse::<u32>::Error(e.clone()).expect_success(), Err(e));
}

#[test]
fn connection_ids() {
    let a = ConnectionId(1);
    let b = ConnectionId(1);
    assert_eq!(a, b);
    assert_ne!(a, ConnectionId(2));
}
