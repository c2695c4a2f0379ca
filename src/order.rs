//! Draft orders and the parsing of the share quantity typed by the user.

use vstd::prelude::*;

verus! {

/// Step of the order form: first the quantity, then the confirmation.
#[derive(Clone, Copy, Debug, PartialEq, Eq, Structural)]
pub enum OrderFormState {
    Quantity,
    Submit,
}

/// Side of a trade.
#[derive(Clone, Copy, Debug, PartialEq, Eq, Structural)]
pub enum OrderAction {
    Buy,
    Sell,
}

/// Pricing of an order.
#[derive(Clone, Copy, Debug, PartialEq, Eq, Structural)]
pub enum OrderType {
    Market,
    Limit,
}

impl OrderAction {
    /// The label shown for the action.
    pub fn label(&self) -> (r: &'static str)
        ensures
            r@ == (match *self {
                OrderAction::Buy => "BUY"@,
                OrderAction::Sell => "SELL"@,
            }),
    {
        match self {
            OrderAction::Buy => "BUY",
            OrderAction::Sell => "SELL",
        }
    }
}

impl OrderType {
    /// The label shown for the order type.
    pub fn label(&self) -> (r: &'static str)
        ensures
            r@ == (match *self {
                OrderType::Market => "MARKET"@,
                OrderType::Limit => "LIMIT"@,
            }),
    {
        match self {
            OrderType::Market => "MARKET",
            OrderType::Limit => "LIMIT",
        }
    }
}

/// An order under construction.
#[derive(Clone, Debug)]
pub struct DraftOrder {
    pub action: OrderAction,
    pub order_type: OrderType,
    pub quantity: Option<u64>,
    pub symbol: Option<String>,
}

/// The mathematical content of a draft order.
pub struct DraftOrderView {
    pub action: OrderAction,
    pub order_type: OrderType,
    pub quantity: Option<u64>,
    pub symbol: Option<Seq<char>>,
}

impl View for DraftOrder {
    type V = DraftOrderView;

    open spec fn view(&self) -> DraftOrderView {
        DraftOrderView {
            action: self.action,
            order_type: self.order_type,
            quantity: self.quantity,
            symbol: match self.symbol {
                Some(s) => Some(s@),
                None => None,
            },
        }
    }
}

impl DraftOrder {
    /// A fresh draft with no quantity yet.
    pub fn new(action: OrderAction, order_type: OrderType, symbol: Option<String>) -> (d:
        DraftOrder)
        ensures
            d.action == action,
            d.order_type == order_type,
            d.quantity is None,
            d.symbol == symbol,
    {
        DraftOrder { action, order_type, quantity: None, symbol }
    }

    /// A copy of the draft with the same content.
    pub fn duplicate(&self) -> (d: DraftOrder)
        ensures
            d@ == self@,
    {
        let symbol = match &self.symbol {
            Some(s) => Some(s.clone()),
            None => None,
        };
        DraftOrder {
            action: self.action,
            order_type: self.order_type,
            quantity: self.quantity,
            symbol,
        }
    }
}

/// A decimal digit.
pub open spec fn is_digit(c: char) -> bool {
    '0' <= c <= '9'
}

/// The value of a decimal digit.
pub open spec fn digit_value(c: char) -> nat {
    ((c as int) - ('0' as int)) as nat
}

/// Every character of `s` is a decimal digit.
pub open spec fn all_digits(s: Seq<char>) -> bool {
    forall|i: int| 0 <= i < s.len() ==> is_digit(#[trigger] s[i])
}

/// The number that a string of decimal digits writes, most significant
/// digit first; the empty string reads as zero.
pub open spec fn digits_value(s: Seq<char>) -> nat
    decreases s.len(),
{
    if s.len() == 0 {
        0
    } else {
        digits_value(s.drop_last()) * 10 + digit_value(s.last())
    }
}

/// The share quantity that `s` denotes: a non-empty string of digits whose
/// value is positive and fits in a `u64`.
pub open spec fn quantity_of(s: Seq<char>) -> Option<u64> {
    if s.len() > 0 && all_digits(s) && 0 < digits_value(s) <= u64::MAX {
        Some(digits_value(s) as u64)
    } else {
        None
    }
}

/// A longer string of digits is worth at least as much as its prefix.
proof fn lemma_prefix_value_le(s: Seq<char>, k: int)
    requires
        0 <= k <= s.len(),
    ensures
        digits_value(s.subrange(0, k)) <= digits_value(s),
    decreases s.len() - k,
{
    if k < s.len() {
        lemma_prefix_value_le(s, k + 1);
        let p = s.subrange(0, k + 1);
        assert(p.drop_last() =~= s.subrange(0, k));
    } else {
        assert(s.subrange(0, k) =~= s);
    }
}

/// Whether `c` is a decimal digit.
pub fn is_digit_char(c: char) -> (r: bool)
    ensures
        r == is_digit(c),
{
    '0' <= c && c <= '9'
}

/// Reads the share quantity typed into `buf`.
pub fn parse_quantity(buf: &Vec<char>) -> (r: Option<u64>)
    ensures
        r == quantity_of(buf@),
{
    if buf.len() == 0 {
        return None;
    }
    let mut acc: u64 = 0;
    let mut i: usize = 0;
    while i < buf.len()
        invariant
            i <= buf@.len(),
            all_digits(buf@.subrange(0, i as int)),
            acc as nat == digits_value(buf@.subrange(0, i as int)),
        decreases buf.len() - i,
    {
        let c = buf[i];
        if !is_digit_char(c) {
            return None;
        }
        let d = (c as u32 - '0' as u32) as u64;
        let ghost p = buf@.subrange(0, i as int + 1);
        assert(p.drop_last() =~= buf@.subrange(0, i as int));
        assert(digits_value(p) == acc * 10 + d);
        let next = match acc.checked_mul(10) {
            Some(m) => m.checked_add(d),
            None => None,
        };
        match next {
            Some(v) => {
                acc = v;
            },
            None => {
                proof {
                    lemma_prefix_value_le(buf@, i as int + 1);
                }
                return None;
            },
        }
        assert(all_digits(p)) by {
            assert forall|j: int| 0 <= j < p.len() implies is_digit(#[trigger] p[j]) by {
                if j < i {
                    assert(p[j] == buf@.subrange(0, i as int)[j]);
                }
            }
        }
        i = i + 1;
    }
    assert(buf@.subrange(0, i as int) =~= buf@);
    if acc == 0 {
        None
    } else {
        Some(acc)
    }
}

} // verus!
