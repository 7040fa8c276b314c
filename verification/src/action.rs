//! The trade direction a decode is asked for. Classification is exhaustive
//! over exactly buy and sell: any other direction token is rejected before
//! any further work is done.

use vstd::prelude::*;
use vstd::string::StringExecFns;

verus! {

/// The two directions a decoded trade can have.
#[derive(Clone, Copy, PartialEq, Eq, Structural, Debug)]
pub enum Action {
    Buy,
    Sell,
}

impl Action {
    /// Parses a direction token: exactly `buy` or `sell`, everything else is
    /// rejected.
    pub fn from_str(input: &String) -> (r: Option<Action>)
        ensures
            input@ == "buy"@ ==> r == Some(Action::Buy),
            input@ == "sell"@ ==> r == Some(Action::Sell),
            input@ != "buy"@ && input@ != "sell"@ ==> r is None,
    {
        proof {
            reveal_strlit("buy");
            reveal_strlit("sell");
            assert("buy"@.len() != "sell"@.len());
        }
        let buy: String = "buy".to_owned();
        if *input == buy {
            return Some(Action::Buy);
        }
        let sell: String = "sell".to_owned();
        if *input == sell {
            return Some(Action::Sell);
        }
        None
    }
}

} // verus!
