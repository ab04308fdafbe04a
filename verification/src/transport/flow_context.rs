use vstd::prelude::*;
use crate::memory::ops::MemoryError;
use crate::transport::flow_control::{FlowControl, FlowControlReceiver};

verus! {

/// Both sides of the flow control of one end.
pub struct FlowControlContext {
    pub sender: Option<FlowControl>,
    pub receiver: Option<FlowControlReceiver>,
}

impl FlowControlContext {
    /// A sender with a third of the receive depth as credits, and a
    /// receiver for that depth.
    pub fn new(rx_depth: u32) -> (r: Result<FlowControlContext, MemoryError>)
        ensures
            r matches Ok(c) ==> {
                &&& c.sender matches Some(s) && s.wf() && s.credits() == rx_depth / 3 && s.spec_initial_credit()
                    == rx_depth / 3 && s.spec_credit_threshold() == (rx_depth / 3) / 3 && s.spec_remote_info() is None
                &&& c.receiver matches Some(v) && v.wf() && v.processed() == 0 && v.spec_credit_threshold()
                    == rx_depth / 3
            },
            r matches Err(e) ==> e is AllocationFailed,
    {
        let sender_credit = rx_depth / 3;
        let sender = match FlowControl::new(sender_credit) {
            Ok(s) => s,
            Err(e) => return Err(e),
        };
        let receiver = match FlowControlReceiver::new(rx_depth) {
            Ok(v) => v,
            Err(e) => return Err(e),
        };
        Ok(FlowControlContext { sender: Some(sender), receiver: Some(receiver) })
    }

    /// The sender side, if any.
    pub fn get_sender(&self) -> (r: Option<&FlowControl>)
        ensures
            r == (match self.sender {
                Some(s) => Some(&s),
                None => None,
            }),
    {
        match &self.sender {
            Some(s) => Some(s),
            None => None,
        }
    }

    /// The receiver side, if any, to update in place.
    pub fn get_receiver(&mut self) -> (r: Option<&mut FlowControlReceiver>)
        ensures
            r is Some <==> old(self).receiver is Some,
            r matches Some(v) ==> *v == old(self).receiver->0 && final(self).receiver == Some(*final(v)),
            r is None ==> final(self).receiver is None,
            final(self).sender == old(self).sender,
    {
        match &mut self.receiver {
            Some(v) => Some(v),
            None => None,
        }
    }

    /// Records where the peer's credit word is, on the sender side if any.
    pub fn set_sender_remote_info(&mut self, addr: u64, rkey: u32)
        ensures
            old(self).sender is None ==> final(self).sender is None,
            old(self).sender matches Some(s) ==> (final(self).sender matches Some(t) && t.spec_remote_info() == Some(
                crate::transport::flow_control::RemoteMemoryInfo { addr, rkey },
            ) && t.credits() == s.credits() && t.wf() == s.wf()),
    {
        match &mut self.sender {
            Some(sender) => sender.set_remote_info(addr, rkey),
            None => {},
        }
    }
}

} // verus!
