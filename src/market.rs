//! Reference data delivered by the market-data and brokerage services.

use vstd::prelude::*;

verus! {

/// A brokerage account as the account service reports it.
#[derive(Clone, Debug)]
pub struct Account {
    pub account_id: String,
    pub account_id_key: String,
    pub account_name: String,
    pub account_type: String,
    /// Total value and net market value, where the balance is known.
    pub balance: Option<(String, String)>,
}

/// A quote for one ticker, with every figure in its display form.
#[derive(Clone, Debug)]
pub struct Quote {
    pub symbol: String,
    pub primary_exchange: String,
    pub date_time: String,
    pub bid: String,
    pub ask: String,
    pub open: String,
    pub eps: String,
    pub pe: String,
    pub beta: String,
    pub high52: String,
    pub high52_date: String,
    pub low52: String,
    pub low52_date: String,
    pub dividend: String,
    pub ex_dividend_date: String,
}

} // verus!
