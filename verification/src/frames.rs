//! The call-frame tree of one transaction's execution trace, and the value
//! aggregator that sums the native coin flowing to one address across it.

use vstd::prelude::*;
use crate::amount::Uint256;
use crate::amount::bound256;

verus! {

/// The kind of one call frame: a plain value-transferring call, or any of
/// the other call kinds (which never carry native value to count here).
#[derive(Clone, Copy, PartialEq, Eq, Structural, Debug)]
pub enum CallKind {
    Call,
    Other,
}

/// One node of a transaction's nested execution trace. The children mirror
/// the call stack, so the tree is finite and acyclic by construction.
pub struct CallFrame {
    /// Call kind tag.
    pub kind: CallKind,
    /// Target address (20 bytes), absent for creation-style frames.
    pub to: Option<Vec<u8>>,
    /// Native-coin value carried by this call, absent when none was given.
    pub value: Option<Uint256>,
    /// Input payload handed to the call, absent when none was given.
    pub input: Option<Vec<u8>>,
    /// Child frames, in execution order.
    pub calls: Vec<CallFrame>,
}

/// What this single node contributes toward `target`: its value when it is a
/// plain value-call aimed at `target` and carries a value, zero otherwise.
pub open spec fn node_value(f: CallFrame, target: Seq<u8>) -> nat {
    match (f.kind, f.to, f.value) {
        (CallKind::Call, Some(to), Some(v)) => if to@ == target {
            v.val()
        } else {
            0
        },
        _ => 0,
    }
}

/// The sum, over every node of the tree, of what that node contributes
/// toward `target` — the whole tree is visited, matching or not.
pub open spec fn frame_sum(f: CallFrame, target: Seq<u8>) -> nat
    decreases f,
{
    node_value(f, target) + frames_suffix_sum(f.calls@, target, 0)
}

/// The sum of `frame_sum` over the frames of `s` from index `i` on.
pub open spec fn frames_suffix_sum(s: Seq<CallFrame>, target: Seq<u8>, i: int) -> nat
    decreases s, s.len() - i,
{
    if i < 0 || i >= s.len() {
        0
    } else {
        frame_sum(s[i], target) + frames_suffix_sum(s, target, i + 1)
    }
}

/// Whether any node of the tree contributes a nonzero-eligible match: a
/// value-call aimed at `target` that carries a value.
pub open spec fn has_match(f: CallFrame, target: Seq<u8>) -> bool
    decreases f,
{
    (f.kind == CallKind::Call && f.to is Some && f.to->0@ == target && f.value is Some)
        || exists|i: int| 0 <= i < f.calls@.len() && has_match(#[trigger] f.calls@[i], target)
}

/// A tree with no matching node aggregates to zero.
pub proof fn lemma_no_match_sum_zero(f: CallFrame, target: Seq<u8>)
    requires
        !has_match(f, target),
    ensures
        frame_sum(f, target) == 0,
    decreases f,
{
    lemma_no_match_suffix_sum_zero(f, target, 0);
}

proof fn lemma_no_match_suffix_sum_zero(f: CallFrame, target: Seq<u8>, i: int)
    requires
        !has_match(f, target),
        i >= 0,
    ensures
        frames_suffix_sum(f.calls@, target, i) == 0,
    decreases f, f.calls@.len() - i,
{
    if i < f.calls@.len() {
        lemma_no_match_sum_zero(f.calls@[i], target);
        lemma_no_match_suffix_sum_zero(f, target, i + 1);
    }
}

/// Sums the native-coin value of every plain value-call aimed at `target`
/// across the whole tree, however deeply nested and whatever stands above
/// it. `None` reports a sum that does not fit in 256 bits.
pub fn sum_calls(frame: &CallFrame, target: &Vec<u8>) -> (r: Option<Uint256>)
    ensures
        match r {
            Some(total) => total.val() == frame_sum(*frame, target@),
            None => frame_sum(*frame, target@) >= bound256(),
        },
        r is Some <==> frame_sum(*frame, target@) < bound256(),
    decreases *frame,
{
    let mut acc: Uint256 = Uint256::zero();
    if let CallKind::Call = frame.kind {
        if let Some(to) = &frame.to {
            if bytes_eq(to, target) {
                if let Some(v) = &frame.value {
                    acc = *v;
                }
            }
        }
    }
    assert(acc.val() == node_value(*frame, target@));
    let n = frame.calls.len();
    let mut i: usize = 0;
    while i < n
        invariant
            0 <= i <= n,
            n == frame.calls@.len(),
            acc.val() + frames_suffix_sum(frame.calls@, target@, i as int) == frame_sum(
                *frame,
                target@,
            ),
        decreases n - i,
    {
        let sub = match sum_calls(&frame.calls[i], target) {
            Some(s) => s,
            None => {
                return None;
            },
        };
        acc = match acc.checked_add(&sub) {
            Some(a) => a,
            None => {
                return None;
            },
        };
        i = i + 1;
    }
    Some(acc)
}

/// Byte-for-byte equality of two byte vectors.
pub fn bytes_eq(a: &Vec<u8>, b: &Vec<u8>) -> (r: bool)
    ensures
        r <==> a@ == b@,
{
    if a.len() != b.len() {
        assert(a@.len() != b@.len());
        return false;
    }
    let n = a.len();
    let mut i: usize = 0;
    while i < n
        invariant
            0 <= i <= n,
            n == a@.len(),
            n == b@.len(),
            forall|j: int| 0 <= j < i ==> a@[j] == b@[j],
        decreases n - i,
    {
        if a[i] != b[i] {
            return false;
        }
        i = i + 1;
    }
    proof {
        assert(a@ =~= b@);
    }
    true
}

} // verus!
