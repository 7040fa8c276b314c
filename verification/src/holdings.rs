//! The holdings interface of the dispersal service: which asset a holding is
//! queried in, and the basis-point share computation applied to a queried
//! holding. The queries themselves are remote contract reads performed by a
//! driver; only the share arithmetic is decided here.

use vstd::prelude::*;
use crate::amount::Uint256;
use crate::amount::bound256;

verus! {

/// Which asset a holding is queried in: the native coin or a token.
pub enum HoldingOptions {
    Eth,
    Token,
}

/// The denominator of a basis-point percentage: 10000 stands for the whole.
pub open spec fn bps_denominator() -> nat {
    10000
}

/// The basis-point share of a holding: `holdings * percentage_bps / 10000`,
/// or `None` when the intermediate product does not fit in 256 bits.
pub fn holdings_percentage(holdings: &Uint256, percentage_bps: u64) -> (r: Option<Uint256>)
    ensures
        r is Some <==> holdings.val() * (percentage_bps as nat) < bound256(),
        r matches Some(p) ==> p.val() == holdings.val() * (percentage_bps as nat) / bps_denominator(),
{
    let product = match holdings.mul_small(percentage_bps) {
        Some(p) => p,
        None => {
            return None;
        },
    };
    let (share, _rem) = product.divmod_small(10000);
    Some(share)
}

} // verus!
