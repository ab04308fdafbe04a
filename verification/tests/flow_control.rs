use stride::transport::flow_context::FlowControlContext;
use stride::transport::flow_control::{FlowControl, FlowControlReceiver, CREDIT_UPDATE_WR_ID};

#[test]
fn sender_credits() {
    let mut f = FlowControl::new(1).unwrap();
    assert!(f.has_credit());
    f.consume_credit();
    assert!(!f.has_credit());
    f.apply_remote_update(0);
    assert!(f.has_credit());
    f.consume_credit();
    f.apply_remote_update(1);
    assert!(!f.has_credit());
}

#[test]
fn sender_threshold() {
    let f = FlowControl::new(9).unwrap();
    assert!(f.should_update_credit(6));
    assert!(f.should_update_credit(0));
    assert!(!f.should_update_credit(7));
}

#[test]
fn credit_word_roundtrip() {
    let mut f = FlowControl::new(4).unwrap();
    f.update_credit(5);
    assert_eq!(f.check_remote_credit(), 5);
    f.reset();
    assert_eq!(f.check_remote_credit(), 0);
    assert!(f.has_credit());
    assert_eq!(f.credit_word_len(), 4);
}

#[test]
fn remote_update_restores_credits() {
    let mut f = FlowControl::new(2).unwrap();
    f.consume_credit();
    f.consume_credit();
    assert!(!f.has_credit());
    f.update_credit(1);
    f.process_remote_update();
    assert!(f.has_credit());
    f.consume_credit();
    assert!(!f.has_credit());
}

#[test]
fn credit_update_needs_peer_and_registration() {
    let mut f = FlowControl::new(3).unwrap();
    assert!(f.prepare_credit_update(1, true).is_none());
    f.set_remote_info(0xdead_0000, 42);
    assert!(f.prepare_credit_update(1, false).is_none());
    let target = f.prepare_credit_update(2, true).unwrap();
    assert_eq!((target.addr, target.rkey), (0xdead_0000, 42));
    assert_eq!(f.check_remote_credit(), 2);
    assert_eq!(CREDIT_UPDATE_WR_ID, 0xFFFF_FFFF);
}

#[test]
fn receiver_publishes_every_threshold() {
    let mut r = FlowControlReceiver::new(6).unwrap();
    assert!(!r.process_completion());
    assert!(r.process_completion());
    assert_eq!(r.get_processed_count(), 2);
    assert_eq!(r.get_remote_processed_count(), 2);
    assert!(!r.process_completion());
    assert_eq!(r.get_remote_processed_count(), 2);
    r.reset();
    assert_eq!(r.get_processed_count(), 0);
    assert_eq!(r.get_remote_processed_count(), 0);
}

#[test]
fn context_has_both_sides() {
    let mut c = FlowControlContext::new(12).unwrap();
    assert!(c.get_sender().unwrap().has_credit());
    c.set_sender_remote_info(1, 2);
    let r = c.receiver.as_mut().unwrap();
    for _ in 0..3 {
        assert!(!r.process_completion());
    }
    assert!(r.process_completion());
}

#[test]
fn receiver_updated_in_place() {
    let mut ctx = FlowControlContext::new(9).unwrap();
    {
        let receiver = ctx.get_receiver().unwrap();
        assert!(!receiver.process_completion());
        assert!(!receiver.process_completion());
    }
    assert_eq!(ctx.get_receiver().unwrap().get_processed_count(), 2);
    ctx.receiver = None;
    assert!(ctx.get_receiver().is_none());
}

#[test]
fn credit_word_addresses_are_stable() {
    let f = FlowControl::new(9).unwrap();
    assert_ne!(f.credit_word_address(), 0);
    assert_eq!(f.credit_word_address(), f.credit_word_address());
    let r = FlowControlReceiver::new(9).unwrap();
    assert_eq!(r.credit_word_address(), r.credit_word_address());
    assert_ne!(r.credit_word_address(), f.credit_word_address());
}

#[test]
fn credit_word_holds_the_published_count() {
    let mut f = FlowControl::new(9).unwrap();
    f.update_credit(7);
    assert_eq!(f.check_remote_credit(), 7);
    f.reset();
    assert_eq!(f.check_remote_credit(), 0);
    let mut r = FlowControlReceiver::new(6).unwrap();
    r.process_completion();
    assert!(r.process_completion());
    assert_eq!(r.get_remote_processed_count(), 2);
}
