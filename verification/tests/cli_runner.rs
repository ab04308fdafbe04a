use stride::cli::runner::{endpoint_address, request_offsets, test_type_of_name, text_contains};
use stride::utils::display::TestType;

#[test]
fn text_search() {
    assert!(text_contains("RDMA SEND latency", "SEND"));
    assert!(text_contains("abc", ""));
    assert!(text_contains("abc", "abc"));
    assert!(!text_contains("ab", "abc"));
    assert!(!text_contains("send", "SEND"));
}

#[test]
fn test_types_by_name() {
    assert_eq!(test_type_of_name("SEND latency"), TestType::SendLatency);
    assert_eq!(test_type_of_name("SEND bandwidth"), TestType::SendBandwidth);
    assert_eq!(test_type_of_name("WRITE latency"), TestType::WriteLatency);
    assert_eq!(test_type_of_name("RDMA WRITE bw"), TestType::WriteBandwidth);
    assert_eq!(test_type_of_name("READ latency"), TestType::ReadLatency);
    assert_eq!(test_type_of_name("read"), TestType::ReadBandwidth);
}

#[test]
fn endpoint_addresses() {
    assert_eq!(endpoint_address(true, None, None), "0.0.0.0:18515");
    assert_eq!(endpoint_address(true, Some("10.0.0.9"), Some(7)), "0.0.0.0:7");
    assert_eq!(endpoint_address(false, None, Some(1234)), "127.0.0.1:1234");
    assert_eq!(endpoint_address(false, Some("10.0.0.2"), None), "10.0.0.2:18515");
}

#[test]
fn request_offsets_cycle() {
    assert_eq!(request_offsets(5, 4, 100, 150), (100, 100));
    assert_eq!(request_offsets(7, 4, 100, 150), (300, 0));
    assert_eq!(request_offsets(8, 4, 100, 150), (0, 0));
}
