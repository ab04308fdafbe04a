use stride::utils::mtu::{mtu_to_value, negotiate_mtu, value_to_mtu, Mtu};

#[test]
fn test_mtu_to_value() {
    assert_eq!(mtu_to_value(Mtu::Mtu256), 256);
    assert_eq!(mtu_to_value(Mtu::Mtu512), 512);
    assert_eq!(mtu_to_value(Mtu::Mtu1024), 1024);
    assert_eq!(mtu_to_value(Mtu::Mtu2048), 2048);
    assert_eq!(mtu_to_value(Mtu::Mtu4096), 4096);
}

#[test]
fn test_value_to_mtu() {
    assert_eq!(value_to_mtu(256), Mtu::Mtu256);
    assert_eq!(value_to_mtu(300), Mtu::Mtu512);
    assert_eq!(value_to_mtu(1024), Mtu::Mtu1024);
    assert_eq!(value_to_mtu(1500), Mtu::Mtu2048);
    assert_eq!(value_to_mtu(5000), Mtu::Mtu4096);
}

#[test]
fn test_negotiate_mtu() {
    // Test no downgrade needed
    let (negotiated, downgraded) = negotiate_mtu(Mtu::Mtu1024, Mtu::Mtu4096, "test", 1);
    assert_eq!(negotiated, Mtu::Mtu1024);
    assert!(!downgraded);

    // Test downgrade needed
    let (negotiated, downgraded) = negotiate_mtu(Mtu::Mtu4096, Mtu::Mtu1024, "test", 1);
    assert_eq!(negotiated, Mtu::Mtu1024);
    assert!(downgraded);
}

#[test]
fn test_simple_negotiation() {
    // Test that local validation works correctly
    let (negotiated, downgraded) = negotiate_mtu(Mtu::Mtu4096, Mtu::Mtu2048, "test", 1);
    assert_eq!(negotiated, Mtu::Mtu2048);
    assert!(downgraded);

    // Test that no downgrade is needed
    let (negotiated, downgraded) = negotiate_mtu(Mtu::Mtu1024, Mtu::Mtu4096, "test", 1);
    assert_eq!(negotiated, Mtu::Mtu1024);
    assert!(!downgraded);
}

#[test]
fn mtu_value_roundtrip_on_every_mtu() {
    for mtu in [Mtu::Mtu256, Mtu::Mtu512, Mtu::Mtu1024, Mtu::Mtu2048, Mtu::Mtu4096] {
        assert_eq!(value_to_mtu(mtu_to_value(mtu)), mtu);
    }
}

#[test]
fn value_to_mtu_edges() {
    assert_eq!(value_to_mtu(0), Mtu::Mtu256);
    assert_eq!(value_to_mtu(257), Mtu::Mtu512);
    assert_eq!(value_to_mtu(2049), Mtu::Mtu4096);
    assert_eq!(value_to_mtu(u32::MAX), Mtu::Mtu4096);
}

#[test]
fn negotiated_mtu_is_the_smaller() {
    let (negotiated, downgraded) = negotiate_mtu(Mtu::Mtu2048, Mtu::Mtu2048, "mlx5_0", 1);
    assert_eq!(negotiated, Mtu::Mtu2048);
    assert!(!downgraded);
    let (negotiated, _) = negotiate_mtu(Mtu::Mtu512, Mtu::Mtu256, "mlx5_0", 2);
    assert_eq!(negotiated, Mtu::Mtu256);
}
