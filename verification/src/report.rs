//! The trade classifier and report formatter: decides what each leg of the
//! trade amounts to and renders the two human-readable report lines.

use vstd::prelude::*;
use vstd::string::StringExecFns;
use crate::amount::Uint256;
use crate::amount::bound256;
use crate::format::format_with_padding;
use crate::format::formatted;
use crate::frames::CallFrame;
use crate::frames::frame_sum;
use crate::frames::sum_calls;

verus! {

/// Why a decode stopped without a report. Every kind is recoverable at the
/// decode boundary and must reach the caller, never end the process.
#[derive(Clone, Copy, PartialEq, Eq, Structural, Debug)]
pub enum DecodeError {
    /// Transaction or receipt absent for the given hash.
    NotFound,
    /// Malformed hash or address input.
    ParseError,
    /// A token's decimals, symbol or balance call failed.
    ContractCallError,
    /// Fork creation, impersonation, or transaction replay failed.
    SimulationError,
    /// No transfer log matched the requested direction: an explicit outcome,
    /// never a zero amount.
    NoCounterpartyFound,
    /// A computed amount would be negative or not fit in 256 bits: a
    /// data-consistency error, never wrapped silently.
    BalanceInconsistent,
}

/// The token contract a trade ran against, as the decoder reads it.
pub struct TokenInfo {
    /// Contract address, 20 bytes.
    pub address: Vec<u8>,
    /// Declared decimal exponent.
    pub decimals: u8,
    /// Declared ticker symbol.
    pub symbol: String,
}

/// The two report lines of a decoded trade.
#[derive(Debug)]
pub struct Report {
    /// What the trader gave away.
    pub sent: String,
    /// What the trader received.
    pub received: String,
}

/// What an outside case folding gives a string; only the trusted wrapper
/// below says anything about it.
pub uninterp spec fn lower_of(s: Seq<char>) -> Seq<char>;

/// Relies on str::to_lowercase: the result depends on the characters alone.
#[verifier::external_body]
fn lowercase(s: &String) -> (r: String)
    ensures
        r@ == lower_of(s@),
{
    s.as_str().to_lowercase()
}

/// The rendered "Sent" line for an amount and a unit name.
pub open spec fn sent_line(amount: Seq<char>, unit: Seq<char>) -> Seq<char> {
    "Sent "@ + amount + " "@ + unit
}

/// The rendered "Received" line for an amount and a unit name.
pub open spec fn received_line(amount: Seq<char>, unit: Seq<char>) -> Seq<char> {
    "Received "@ + amount + " "@ + unit
}

/// Appends `amount` and then a space and `unit` to a line already holding
/// its leading word.
fn push_amount_and_unit(line: &mut String, amount: &String, unit: &String)
    ensures
        final(line)@ == old(line)@ + amount@ + " "@ + unit@,
{
    line.append(amount.as_str());
    line.append(" ");
    line.append(unit.as_str());
}

/// Builds a "Sent" line.
fn build_sent_line(amount: &String, unit: &String) -> (r: String)
    ensures
        r@ == sent_line(amount@, unit@),
{
    let mut line: String = "Sent ".to_owned();
    push_amount_and_unit(&mut line, amount, unit);
    line
}

/// Builds a "Received" line.
fn build_received_line(amount: &String, unit: &String) -> (r: String)
    ensures
        r@ == received_line(amount@, unit@),
{
    let mut line: String = "Received ".to_owned();
    push_amount_and_unit(&mut line, amount, unit);
    line
}

/// The report of a buy: the native amount is the transaction's own value
/// (18 decimals), the token amount is the simulated balance rise of the
/// receiver, `post - pre`, rendered with the token's declared decimals and
/// its symbol lower-cased. A post balance below the pre balance is a
/// data-consistency error.
pub fn buy_report(tx_value: &Uint256, token: &TokenInfo, pre: &Uint256, post: &Uint256) -> (r:
    Result<Report, DecodeError>)
    ensures
        r is Ok <==> post.val() >= pre.val(),
        r matches Ok(rep) ==> {
            &&& rep.sent@ == sent_line(formatted(tx_value.val(), 18), "ether"@)
            &&& rep.received@ == received_line(
                formatted((post.val() - pre.val()) as nat, token.decimals as nat),
                lower_of(token.symbol@),
            )
        },
        r matches Err(e) ==> e == DecodeError::BalanceInconsistent,
{
    let token_amount = match post.checked_sub(pre) {
        Some(d) => d,
        None => {
            return Err(DecodeError::BalanceInconsistent);
        },
    };
    let native_str = format_with_padding(tx_value, 18);
    let token_str = format_with_padding(&token_amount, token.decimals as usize);
    let ether: String = "ether".to_owned();
    let symbol_lower = lowercase(&token.symbol);
    let sent = build_sent_line(&native_str, &ether);
    let received = build_received_line(&token_str, &symbol_lower);
    Ok(Report { sent, received })
}

/// The report of a sell: the token amount is the trader's balance drop,
/// `pre - post`; the native amount is the call-frame aggregation of every
/// plain value-call flowing to the trader across the transaction's trace.
/// (A variant design reads the native leg from a balance delta plus gas
/// instead: see `native_delta_with_gas`; the two disagree in intent and this
/// report follows the aggregation.) A pre balance below the post balance,
/// or an aggregate beyond 256 bits, is a data-consistency error.
pub fn sell_report(trace: &CallFrame, trader: &Vec<u8>, token: &TokenInfo, pre: &Uint256, post:
    &Uint256) -> (r: Result<Report, DecodeError>)
    ensures
        r is Ok <==> pre.val() >= post.val() && frame_sum(*trace, trader@) < bound256(),
        r matches Ok(rep) ==> {
            &&& rep.sent@ == sent_line(
                formatted((pre.val() - post.val()) as nat, token.decimals as nat),
                lower_of(token.symbol@),
            )
            &&& rep.received@ == received_line(formatted(frame_sum(*trace, trader@), 18), "ether"@)
        },
        r matches Err(e) ==> e == DecodeError::BalanceInconsistent,
{
    let token_amount = match pre.checked_sub(post) {
        Some(d) => d,
        None => {
            return Err(DecodeError::BalanceInconsistent);
        },
    };
    let native_amount = match sum_calls(trace, trader) {
        Some(s) => s,
        None => {
            return Err(DecodeError::BalanceInconsistent);
        },
    };
    let token_str = format_with_padding(&token_amount, token.decimals as usize);
    let native_str = format_with_padding(&native_amount, 18);
    let ether: String = "ether".to_owned();
    let symbol_lower = lowercase(&token.symbol);
    let sent = build_sent_line(&token_str, &symbol_lower);
    let received = build_received_line(&native_str, &ether);
    Ok(Report { sent, received })
}

/// The variant reading of the sell's native leg: the sender's native balance
/// delta across the trade with the gas cost folded back in — the gas term is
/// added to the raw delta, never subtracted, because the sender paid gas out
/// of the same balance that received the native coin. Computed as
/// `(post + gas_used * gas_price) - pre`, which equals
/// `(post - pre) + gas_used * gas_price` without ever dipping below zero.
pub fn native_delta_with_gas(pre: &Uint256, post: &Uint256, gas_used: u64, gas_price: u128) -> (r:
    Result<Uint256, DecodeError>)
    ensures
        r is Ok <==> post.val() + gas_used * gas_price >= pre.val() && post.val() + gas_used
            * gas_price < bound256(),
        r matches Ok(n) ==> n.val() + pre.val() == post.val() + gas_used * gas_price,
        r matches Err(e) ==> e == DecodeError::BalanceInconsistent,
{
    let price = Uint256::from_u128(gas_price);
    proof {
        assert(price.val() * gas_used < bound256()) by (nonlinear_arith)
            requires
                price.val() < 0x1_0000_0000_0000_0000_0000_0000_0000_0000int,
                gas_used < 0x1_0000_0000_0000_0000int,
                bound256()
                    == 0x1_0000_0000_0000_0000_0000_0000_0000_0000_0000_0000_0000_0000_0000_0000_0000_0000nat,
        ;
    }
    let gas_cost = match price.mul_small(gas_used) {
        Some(c) => c,
        None => {
            proof {
                assert(false);
            }
            return Err(DecodeError::BalanceInconsistent);
        },
    };
    proof {
        vstd::arithmetic::mul::lemma_mul_is_commutative(price.val() as int, gas_used as int);
    }
    let with_gas = match post.checked_add(&gas_cost) {
        Some(w) => w,
        None => {
            return Err(DecodeError::BalanceInconsistent);
        },
    };
    match with_gas.checked_sub(pre) {
        Some(n) => Ok(n),
        None => Err(DecodeError::BalanceInconsistent),
    }
}

/// Classifies an absent fetch result: a transaction or receipt that cannot
/// be found must surface as `NotFound`, never be defaulted.
pub fn require_found<T>(x: Option<T>) -> (r: Result<T, DecodeError>)
    ensures
        match r {
            Ok(v) => x == Some(v),
            Err(e) => x is None && e == DecodeError::NotFound,
        },
{
    match x {
        Some(v) => Ok(v),
        None => Err(DecodeError::NotFound),
    }
}

/// Classifies a failed token-contract read: decimals, symbol or a balance
/// that could not be fetched surfaces as `ContractCallError`.
pub fn require_contract_data<T>(x: Option<T>) -> (r: Result<T, DecodeError>)
    ensures
        match r {
            Ok(v) => x == Some(v),
            Err(e) => x is None && e == DecodeError::ContractCallError,
        },
{
    match x {
        Some(v) => Ok(v),
        None => Err(DecodeError::ContractCallError),
    }
}

} // verus!
