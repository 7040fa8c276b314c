//! The transfer-log scanner: finds the counterparty token contract and the
//! matching log by comparing a fixed event signature against topic 0 of every
//! log, in receipt order, and the decoded trader leg against the trader.

use vstd::prelude::*;
use vstd::slice::slice_to_vec;
use vstd::string::StringSliceAdditionalSpecFns;
use crate::action::Action;
use crate::frames::bytes_eq;
use crate::report::DecodeError;

verus! {

/// One event log: the emitting contract address and its ordered topics.
/// Topic 0 is the event signature hash; the remaining topics are indexed
/// event parameters, addresses right-padded into 32 bytes.
pub struct Log {
    /// Emitting contract address, 20 bytes.
    pub address: Vec<u8>,
    /// Up to four 32-byte topics.
    pub topics: Vec<Vec<u8>>,
}

impl Log {
    /// Shape every log fetched from a receipt has: a 20-byte address and
    /// 32-byte topics.
    pub open spec fn wf(&self) -> bool {
        &&& self.address@.len() == 20
        &&& forall|i: int| 0 <= i < self.topics@.len() ==> (#[trigger] self.topics@[i])@.len()
            == 32
    }
}

/// Every log of the receipt is well shaped.
pub open spec fn logs_wf(logs: Seq<Log>) -> bool {
    forall|i: int| 0 <= i < logs.len() ==> (#[trigger] logs[i]).wf()
}

/// The digest an outside hash gives to a byte string; only the trusted
/// wrapper below says anything about it.
pub uninterp spec fn keccak_of(data: Seq<u8>) -> Seq<u8>;

/// Relies on alloy::primitives::keccak256: the 32-byte digest is a function
/// of the input bytes alone.
#[verifier::external_body]
fn keccak256_bytes(data: &Vec<u8>) -> (r: Vec<u8>)
    ensures
        r@ == keccak_of(data@),
        r@.len() == 32,
{
    alloy::primitives::keccak256(data.as_slice()).to_vec()
}

/// The canonical transfer-event text whose hash marks a fungible-token
/// transfer log.
pub open spec fn transfer_event_text() -> Seq<u8> {
    "Transfer(address,address,uint256)".spec_bytes()
}

/// Topic 0 of every transfer log: the hash of the canonical transfer text.
pub open spec fn transfer_topic() -> Seq<u8> {
    keccak_of(transfer_event_text())
}

/// Computes the transfer-event signature topic.
pub fn transfer_signature() -> (r: Vec<u8>)
    ensures
        r@ == transfer_topic(),
        r@.len() == 32,
{
    let text = "Transfer(address,address,uint256)";
    let bytes: Vec<u8> = slice_to_vec(text.as_bytes());
    keccak256_bytes(&bytes)
}

/// The address held in the low 20 bytes of a 32-byte topic word.
pub open spec fn address_of_word(w: Seq<u8>) -> Seq<u8> {
    w.subrange(12, 32)
}

/// Extracts the address right-padded into a 32-byte topic word.
pub fn address_from_word(word: &Vec<u8>) -> (r: Vec<u8>)
    requires
        word@.len() == 32,
    ensures
        r@ == address_of_word(word@),
{
    let mut r: Vec<u8> = Vec::new();
    let mut i: usize = 12;
    while i < 32
        invariant
            12 <= i <= 32,
            word@.len() == 32,
            r@ =~= word@.subrange(12, i as int),
        decreases 32 - i,
    {
        r.push(word[i]);
        i = i + 1;
        proof {
            assert(r@ =~= word@.subrange(12, i as int));
        }
    }
    proof {
        assert(r@ =~= address_of_word(word@));
    }
    r
}

/// Whether `log` is the transfer log of `trader`'s own leg for `action`:
/// topic 0 carries the transfer signature, and the decoded sender (for a
/// sell) or the decoded receiver in the last topic (for a buy) is `trader`.
/// A signature-matching log without a sender topic decodes no sender and so
/// matches no sell.
pub open spec fn log_matches(log: Log, trader: Seq<u8>, action: Action) -> bool {
    &&& log.topics@.len() > 0
    &&& log.topics@[0]@ == transfer_topic()
    &&& match action {
        Action::Sell => log.topics@.len() >= 2 && address_of_word(log.topics@[1]@) == trader,
        Action::Buy => address_of_word(log.topics@[log.topics@.len() - 1]@) == trader,
    }
}

/// Tests one log against `log_matches`, given the precomputed signature.
fn log_matches_exec(log: &Log, trader: &Vec<u8>, action: Action, sig: &Vec<u8>) -> (r: bool)
    requires
        log.wf(),
        sig@ == transfer_topic(),
    ensures
        r == log_matches(*log, trader@, action),
{
    let n = log.topics.len();
    if n == 0 {
        return false;
    }
    if !bytes_eq(&log.topics[0], sig) {
        return false;
    }
    match action {
        Action::Sell => {
            if n < 2 {
                false
            } else {
                word_suffix_eq(&log.topics[1], trader)
            }
        },
        Action::Buy => word_suffix_eq(&log.topics[n - 1], trader),
    }
}

/// Whether the low 20 bytes of a 32-byte word equal `addr`.
fn word_suffix_eq(word: &Vec<u8>, addr: &Vec<u8>) -> (r: bool)
    requires
        word@.len() == 32,
    ensures
        r <==> address_of_word(word@) == addr@,
{
    if addr.len() != 20 {
        assert(address_of_word(word@).len() == 20);
        return false;
    }
    let mut i: usize = 0;
    while i < 20
        invariant
            0 <= i <= 20,
            word@.len() == 32,
            addr@.len() == 20,
            forall|j: int| 0 <= j < i ==> word@[12 + j] == addr@[j],
        decreases 20 - i,
    {
        if word[12 + i] != addr[i] {
            assert(address_of_word(word@)[i as int] != addr@[i as int]);
            return false;
        }
        i = i + 1;
    }
    proof {
        assert(address_of_word(word@) =~= addr@);
    }
    true
}

/// Scans the logs in receipt order and returns the emitting contract address
/// and index of the first log whose transfer leg matches `trader` for
/// `action`; `None` when no log matches, which the caller must treat as "no
/// token leg detected", not as a zero amount.
pub fn find_counterparty(logs: &Vec<Log>, trader: &Vec<u8>, action: Action) -> (r: Option<
    (Vec<u8>, usize),
>)
    requires
        logs_wf(logs@),
    ensures
        match r {
            Some((token, idx)) => {
                &&& idx < logs@.len()
                &&& log_matches(logs@[idx as int], trader@, action)
                &&& token@ == logs@[idx as int].address@
                &&& forall|j: int| 0 <= j < idx ==> !log_matches(logs@[j], trader@, action)
            },
            None => forall|j: int| 0 <= j < logs@.len() ==> !log_matches(
                logs@[j],
                trader@,
                action,
            ),
        },
{
    let sig = transfer_signature();
    let n = logs.len();
    let mut i: usize = 0;
    while i < n
        invariant
            0 <= i <= n,
            n == logs@.len(),
            logs_wf(logs@),
            sig@ == transfer_topic(),
            forall|j: int| 0 <= j < i ==> !log_matches(logs@[j], trader@, action),
        decreases n - i,
    {
        if log_matches_exec(&logs[i], trader, action, &sig) {
            let token: Vec<u8> = slice_to_vec(logs[i].address.as_slice());
            return Some((token, i));
        }
        i = i + 1;
    }
    None
}

/// The decode's counterparty discovery as an explicit outcome: the token
/// contract address and matching log index, or `NoCounterpartyFound` when no
/// transfer log matches the requested direction — the decode then terminates
/// with no report, never with a zero amount.
pub fn scan_for_counterparty(logs: &Vec<Log>, trader: &Vec<u8>, action: Action) -> (r: Result<
    (Vec<u8>, usize),
    DecodeError,
>)
    requires
        logs_wf(logs@),
    ensures
        match r {
            Ok((token, idx)) => {
                &&& idx < logs@.len()
                &&& log_matches(logs@[idx as int], trader@, action)
                &&& token@ == logs@[idx as int].address@
                &&& forall|j: int| 0 <= j < idx ==> !log_matches(logs@[j], trader@, action)
            },
            Err(e) => e == DecodeError::NoCounterpartyFound && forall|j: int|
                0 <= j < logs@.len() ==> !log_matches(logs@[j], trader@, action),
        },
{
    match find_counterparty(logs, trader, action) {
        Some(found) => Ok(found),
        None => Err(DecodeError::NoCounterpartyFound),
    }
}

} // verus!
