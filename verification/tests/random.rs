use stride::utils::random::{generate_psn, psn_from_random};

#[test]
fn psn_keeps_low_24_bits() {
    assert_eq!(psn_from_random(0xFFFF_FFFF), 0x00FF_FFFF);
    assert_eq!(psn_from_random(0x1234_5678), 0x0034_5678);
    assert_eq!(psn_from_random(0), 0);
}

#[test]
fn generated_psns_fit_24_bits() {
    for _ in 0..1000 {
        assert!(generate_psn() < 0x0100_0000);
    }
}
