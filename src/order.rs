use vstd::prelude::*;

use crate::error::Error;
use crate::text::str_equal;

verus! {

/// The status of an order, which a member creates to book at a later date.
#[non_exhaustive]
#[derive(Debug, Clone, Copy, PartialEq, Eq, Structural)]
pub enum OrderStatus {
    Pending,
    Booked,
    ManuallyDispatched,
    Cancelled,
}

impl OrderStatus {
    /// The wire token of each status.
    pub open spec fn token(self) -> Seq<char> {
        match self {
            OrderStatus::Pending => "pending"@,
            OrderStatus::Booked => "booked"@,
            OrderStatus::ManuallyDispatched => "manually_dispatched"@,
            OrderStatus::Cancelled => "cancelled"@,
        }
    }

    /// The status that a token names, if any: exact and case-sensitive.
    pub open spec fn parsed(s: Seq<char>) -> Result<OrderStatus, Error> {
        if s == "pending"@ {
            Ok(OrderStatus::Pending)
        } else if s == "booked"@ {
            Ok(OrderStatus::Booked)
        } else if s == "manually_dispatched"@ {
            Ok(OrderStatus::ManuallyDispatched)
        } else if s == "cancelled"@ {
            Ok(OrderStatus::Cancelled)
        } else {
            Err(Error::UnknownStatus)
        }
    }

    /// The wire token of this status.
    pub fn wire_token(&self) -> (r: &'static str)
        ensures
            r@ == self.token(),
    {
        match self {
            OrderStatus::Pending => "pending",
            OrderStatus::Booked => "booked",
            OrderStatus::ManuallyDispatched => "manually_dispatched",
            OrderStatus::Cancelled => "cancelled",
        }
    }

    /// Reads a status from its wire token.
    pub fn parse(s: &str) -> (r: Result<OrderStatus, Error>)
        ensures
            r == OrderStatus::parsed(s@),
    {
        if str_equal(s, "pending") {
            Ok(OrderStatus::Pending)
        } else if str_equal(s, "booked") {
            Ok(OrderStatus::Booked)
        } else if str_equal(s, "manually_dispatched") {
            Ok(OrderStatus::ManuallyDispatched)
        } else if str_equal(s, "cancelled") {
            Ok(OrderStatus::Cancelled)
        } else {
            Err(Error::UnknownStatus)
        }
    }
}

impl Default for OrderStatus {
    fn default() -> (r: OrderStatus)
        ensures
            r == OrderStatus::Pending,
    {
        OrderStatus::Pending
    }
}

impl std::str::FromStr for OrderStatus {
    type Err = Error;

    fn from_str(s: &str) -> (r: Result<OrderStatus, Error>)
        ensures
            r == OrderStatus::parsed(s@),
    {
        OrderStatus::parse(s)
    }
}

/// Reading the wire token of any status gives that status back.
pub proof fn lemma_order_status_round_trip(st: OrderStatus)
    ensures
        OrderStatus::parsed(st.token()) == Ok::<OrderStatus, Error>(st),
{
    reveal_strlit("pending");
    reveal_strlit("booked");
    reveal_strlit("manually_dispatched");
    reveal_strlit("cancelled");
    assert("pending"@.len() == 7);
    assert("booked"@.len() == 6);
    assert("manually_dispatched"@.len() == 19);
    assert("cancelled"@.len() == 9);
}

/// A token that is no status's token reads as an unknown status.
pub proof fn lemma_unknown_order_token(s: Seq<char>)
    requires
        forall|st: OrderStatus| s != st.token(),
    ensures
        OrderStatus::parsed(s) == Err::<OrderStatus, Error>(Error::UnknownStatus),
{
    assert(s != OrderStatus::Pending.token());
    assert(s != OrderStatus::Booked.token());
    assert(s != OrderStatus::ManuallyDispatched.token());
    assert(s != OrderStatus::Cancelled.token());
}

} // verus!
