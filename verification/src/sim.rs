//! The fork simulator's decision core. The outside work — spinning up the
//! forked chain, the impersonation calls, the balance queries, the replayed
//! send — is I/O that a driver performs; this module fixes what is replayed
//! and in which order the observations must arrive, and keeps the two
//! balance readings apart so the diff reflects only this transaction.

use vstd::prelude::*;
use vstd::slice::slice_to_vec;
use crate::amount::Uint256;
use crate::frames::CallFrame;
use crate::report::DecodeError;

verus! {

/// The transaction handed back to the fork for replay: the original sender,
/// recipient, value and input, nothing else.
#[derive(Debug)]
pub struct ReplayRequest {
    /// Impersonated sender, 20 bytes.
    pub from: Vec<u8>,
    /// Recipient of the original call.
    pub to: Vec<u8>,
    /// Native-coin value of the original call.
    pub value: Uint256,
    /// Input payload of the original call, empty when the original carried
    /// none.
    pub input: Vec<u8>,
}

/// Builds the replay of the traced top-level call for `sender`. A frame
/// without a recipient or without a value cannot be replayed: that is a
/// simulation failure, not a default.
pub fn replay_request(frame: &CallFrame, sender: &Vec<u8>) -> (r: Result<
    ReplayRequest,
    DecodeError,
>)
    ensures
        r is Ok <==> frame.to is Some && frame.value is Some,
        r matches Ok(req) ==> {
            &&& req.from@ == sender@
            &&& req.to@ == frame.to->0@
            &&& req.value == frame.value->0
            &&& req.input@ == (if frame.input is Some {
                frame.input->0@
            } else {
                Seq::<u8>::empty()
            })
        },
        r matches Err(e) ==> e == DecodeError::SimulationError,
{
    let to: Vec<u8> = match &frame.to {
        Some(t) => slice_to_vec(t.as_slice()),
        None => {
            return Err(DecodeError::SimulationError);
        },
    };
    let value: Uint256 = match &frame.value {
        Some(v) => *v,
        None => {
            return Err(DecodeError::SimulationError);
        },
    };
    let input: Vec<u8> = match &frame.input {
        Some(i) => slice_to_vec(i.as_slice()),
        None => Vec::new(),
    };
    Ok(ReplayRequest { from: slice_to_vec(sender.as_slice()), to, value, input })
}

/// How far a fork session has come along the fixed protocol: fork, enable
/// impersonation, impersonate the sender, read the balance before, replay,
/// read the balance after.
#[derive(Clone, Copy, PartialEq, Eq, Structural, Debug)]
pub enum SimPhase {
    Created,
    ImpersonationEnabled,
    SenderImpersonated,
    PreObserved,
    Replayed,
    PostObserved,
}

/// One fork simulation, scoped to one decode: the driver performs each
/// outside step and records its outcome here, and the session enforces the
/// order and keeps the two balance observations.
pub struct ForkSession {
    /// How far the protocol has come.
    pub phase: SimPhase,
    /// The impersonated sender.
    pub sender: Vec<u8>,
    /// Token balance of the observed address before the replay.
    pub pre: Uint256,
    /// Token balance of the observed address after the replay.
    pub post: Uint256,
}

impl ForkSession {
    /// Opens a session for a freshly forked chain.
    pub fn new(sender: Vec<u8>) -> (r: ForkSession)
        ensures
            r.phase == SimPhase::Created,
            r.sender@ == sender@,
    {
        ForkSession { phase: SimPhase::Created, sender, pre: Uint256::zero(), post: Uint256::zero() }
    }

    /// Records that account impersonation was switched on.
    pub fn impersonation_enabled(&mut self)
        requires
            old(self).phase == SimPhase::Created,
        ensures
            final(self).phase == SimPhase::ImpersonationEnabled,
            final(self).sender == old(self).sender,
    {
        self.phase = SimPhase::ImpersonationEnabled;
    }

    /// Records that the original sender is impersonated.
    pub fn sender_impersonated(&mut self)
        requires
            old(self).phase == SimPhase::ImpersonationEnabled,
        ensures
            final(self).phase == SimPhase::SenderImpersonated,
            final(self).sender == old(self).sender,
    {
        self.phase = SimPhase::SenderImpersonated;
    }

    /// Records the balance read before the replay.
    pub fn record_pre(&mut self, balance: Uint256)
        requires
            old(self).phase == SimPhase::SenderImpersonated,
        ensures
            final(self).phase == SimPhase::PreObserved,
            final(self).sender == old(self).sender,
            final(self).pre == balance,
    {
        self.phase = SimPhase::PreObserved;
        self.pre = balance;
    }

    /// Records whether the replayed transaction was included. A replay that
    /// reverted or was not included is a hard failure for this decode: no
    /// partial result is produced.
    pub fn record_replay(&mut self, included: bool) -> (r: Result<(), DecodeError>)
        requires
            old(self).phase == SimPhase::PreObserved,
        ensures
            included ==> r is Ok && final(self).phase == SimPhase::Replayed,
            !included ==> r == Result::<(), DecodeError>::Err(DecodeError::SimulationError)
                && final(self).phase == SimPhase::PreObserved,
            final(self).sender == old(self).sender,
            final(self).pre == old(self).pre,
    {
        if included {
            self.phase = SimPhase::Replayed;
            Ok(())
        } else {
            Err(DecodeError::SimulationError)
        }
    }

    /// Records the balance read after the replay.
    pub fn record_post(&mut self, balance: Uint256)
        requires
            old(self).phase == SimPhase::Replayed,
        ensures
            final(self).phase == SimPhase::PostObserved,
            final(self).sender == old(self).sender,
            final(self).pre == old(self).pre,
            final(self).post == balance,
    {
        self.phase = SimPhase::PostObserved;
        self.post = balance;
    }

    /// The two observations of a completed session, before and after.
    pub fn observed(&self) -> (r: (Uint256, Uint256))
        requires
            self.phase == SimPhase::PostObserved,
        ensures
            r.0 == self.pre,
            r.1 == self.post,
    {
        (self.pre, self.post)
    }
}

} // verus!
