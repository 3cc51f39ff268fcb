use vstd::prelude::*;

use crate::account::Account;
use crate::error::Error;
use crate::product::{Product, Service};
use crate::text::{decimal, push_decimal, str_equal};

verus! {

/// The status of a booking, as the service reports it. The service may move
/// a booking between any two of them; no order is enforced here.
#[non_exhaustive]
#[derive(Debug, Clone, Copy, PartialEq, Eq, Structural)]
pub enum BookingStatus {
    New,
    PendingPayment,
    Paid,
    RequestSent,
    Reviewed,
    Confirmed,
    Cancelled,
    PendingReview,
    RequestFailed,
    BookedManually,
}

impl BookingStatus {
    /// The wire token of each status.
    pub open spec fn token(self) -> Seq<char> {
        match self {
            BookingStatus::New => "new"@,
            BookingStatus::PendingPayment => "pending_payment"@,
            BookingStatus::Paid => "paid"@,
            BookingStatus::RequestSent => "request_sent"@,
            BookingStatus::Reviewed => "reviewed"@,
            BookingStatus::Confirmed => "confirmed"@,
            BookingStatus::Cancelled => "cancelled"@,
            BookingStatus::PendingReview => "pending_review"@,
            BookingStatus::RequestFailed => "request_failed"@,
            BookingStatus::BookedManually => "booked_manually"@,
        }
    }

    /// The status that a token names, if any: exact and case-sensitive.
    pub open spec fn parsed(s: Seq<char>) -> Result<BookingStatus, Error> {
        if s == "new"@ {
            Ok(BookingStatus::New)
        } else if s == "pending_payment"@ {
            Ok(BookingStatus::PendingPayment)
        } else if s == "paid"@ {
            Ok(BookingStatus::Paid)
        } else if s == "request_sent"@ {
            Ok(BookingStatus::RequestSent)
        } else if s == "reviewed"@ {
            Ok(BookingStatus::Reviewed)
        } else if s == "confirmed"@ {
            Ok(BookingStatus::Confirmed)
        } else if s == "cancelled"@ {
            Ok(BookingStatus::Cancelled)
        } else if s == "pending_review"@ {
            Ok(BookingStatus::PendingReview)
        } else if s == "request_failed"@ {
            Ok(BookingStatus::RequestFailed)
        } else if s == "booked_manually"@ {
            Ok(BookingStatus::BookedManually)
        } else {
            Err(Error::UnknownStatus)
        }
    }

    /// The wire token of this status.
    pub fn wire_token(&self) -> (r: &'static str)
        ensures
            r@ == self.token(),
    {
        match self {
            BookingStatus::New => "new",
            BookingStatus::PendingPayment => "pending_payment",
            BookingStatus::Paid => "paid",
            BookingStatus::RequestSent => "request_sent",
            BookingStatus::Reviewed => "reviewed",
            BookingStatus::Confirmed => "confirmed",
            BookingStatus::Cancelled => "cancelled",
            BookingStatus::PendingReview => "pending_review",
            BookingStatus::RequestFailed => "request_failed",
            BookingStatus::BookedManually => "booked_manually",
        }
    }

    /// Reads a status from its wire token.
    pub fn parse(s: &str) -> (r: Result<BookingStatus, Error>)
        ensures
            r == BookingStatus::parsed(s@),
    {
        if str_equal(s, "new") {
            Ok(BookingStatus::New)
        } else if str_equal(s, "pending_payment") {
            Ok(BookingStatus::PendingPayment)
        } else if str_equal(s, "paid") {
            Ok(BookingStatus::Paid)
        } else if str_equal(s, "request_sent") {
            Ok(BookingStatus::RequestSent)
        } else if str_equal(s, "reviewed") {
            Ok(BookingStatus::Reviewed)
        } else if str_equal(s, "confirmed") {
            Ok(BookingStatus::Confirmed)
        } else if str_equal(s, "cancelled") {
            Ok(BookingStatus::Cancelled)
        } else if str_equal(s, "pending_review") {
            Ok(BookingStatus::PendingReview)
        } else if str_equal(s, "request_failed") {
            Ok(BookingStatus::RequestFailed)
        } else if str_equal(s, "booked_manually") {
            Ok(BookingStatus::BookedManually)
        } else {
            Err(Error::UnknownStatus)
        }
    }
}

impl Default for BookingStatus {
    fn default() -> (r: BookingStatus)
        ensures
            r == BookingStatus::New,
    {
        BookingStatus::New
    }
}

impl std::str::FromStr for BookingStatus {
    type Err = Error;

    fn from_str(s: &str) -> (r: Result<BookingStatus, Error>)
        ensures
            r == BookingStatus::parsed(s@),
    {
        BookingStatus::parse(s)
    }
}

/// Reading the wire token of any status gives that status back.
pub proof fn lemma_booking_status_round_trip(st: BookingStatus)
    ensures
        BookingStatus::parsed(st.token()) == Ok::<BookingStatus, Error>(st),
{
    reveal_strlit("new");
    reveal_strlit("pending_payment");
    reveal_strlit("paid");
    reveal_strlit("request_sent");
    reveal_strlit("reviewed");
    reveal_strlit("confirmed");
    reveal_strlit("cancelled");
    reveal_strlit("pending_review");
    reveal_strlit("request_failed");
    reveal_strlit("booked_manually");
    assert("new"@.len() == 3);
    assert("pending_payment"@.len() == 15);
    assert("paid"@.len() == 4);
    assert("request_sent"@.len() == 12);
    assert("reviewed"@.len() == 8);
    assert("confirmed"@.len() == 9);
    assert("cancelled"@.len() == 9);
    assert("pending_review"@.len() == 14);
    assert("request_failed"@.len() == 14);
    assert("booked_manually"@.len() == 15);
    assert("confirmed"@[1] != "cancelled"@[1]);
    assert("pending_review"@[0] != "request_failed"@[0]);
    assert("pending_payment"@[0] != "booked_manually"@[0]);
}

/// A token that is no status's token reads as an unknown status.
pub proof fn lemma_unknown_booking_token(s: Seq<char>)
    requires
        forall|st: BookingStatus| s != st.token(),
    ensures
        BookingStatus::parsed(s) == Err::<BookingStatus, Error>(Error::UnknownStatus),
{
    assert(s != BookingStatus::New.token());
    assert(s != BookingStatus::PendingPayment.token());
    assert(s != BookingStatus::Paid.token());
    assert(s != BookingStatus::RequestSent.token());
    assert(s != BookingStatus::Reviewed.token());
    assert(s != BookingStatus::Confirmed.token());
    assert(s != BookingStatus::Cancelled.token());
    assert(s != BookingStatus::PendingReview.token());
    assert(s != BookingStatus::RequestFailed.token());
    assert(s != BookingStatus::BookedManually.token());
}

/// The resource that quotes and bookings are posted to.
pub fn bookings_path() -> (r: String)
    ensures
        r@ == "bookings/v4"@,
{
    "bookings/v4".to_owned()
}

/// The resource of the booking with the given id: the bookings resource,
/// a slash, and the id in decimal.
pub fn booking_path(id: u32) -> (r: String)
    ensures
        r@ == "bookings/v4/"@ + decimal(id as nat),
{
    let mut s = "bookings/v4/".to_owned();
    push_decimal(&mut s, id);
    s
}

/// A quote or booking request, as sent to the service. The accounts are
/// borrowed for as long as the request lives.
#[derive(Debug)]
pub struct BookingRequest<'a, T, U> {
    pub declared_value: U,
    pub referrer: String,
    pub requesting_site: String,
    pub tailgate_pickup: bool,
    pub tailgate_delivery: bool,
    pub items: Vec<Product<T, U>>,
    pub sender: Option<&'a Account>,
    pub receiver: Option<&'a Account>,
}

impl<'a, T, U: Default> BookingRequest<'a, T, U> {
    /// Empty text, the amount type's default, no tailgate service, no items,
    /// and neither sender nor receiver.
    pub open spec fn is_blank(&self) -> bool {
        &&& call_ensures(U::default, (), self.declared_value)
        &&& self.referrer@ == Seq::<char>::empty()
        &&& self.requesting_site@ == Seq::<char>::empty()
        &&& !self.tailgate_pickup
        &&& !self.tailgate_delivery
        &&& self.items@ == Seq::<Product<T, U>>::empty()
        &&& self.sender is None
        &&& self.receiver is None
    }

    /// An empty request, a valid skeleton to fill in.
    pub fn new() -> (r: BookingRequest<'a, T, U>)
        ensures
            r.is_blank(),
    {
        BookingRequest {
            declared_value: U::default(),
            referrer: String::new(),
            requesting_site: String::new(),
            tailgate_pickup: false,
            tailgate_delivery: false,
            items: Vec::new(),
            sender: None,
            receiver: None,
        }
    }
}

impl<'a, T, U: Default> Default for BookingRequest<'a, T, U> {
    fn default() -> (r: BookingRequest<'a, T, U>)
        ensures
            r.is_blank(),
    {
        BookingRequest::new()
    }
}

impl<'a, T, U> BookingRequest<'a, T, U> {
    /// The resource that a request is posted to.
    pub fn get_path() -> (r: String)
        ensures
            r@ == "bookings/v4"@,
    {
        bookings_path()
    }
}

/// A booking as the service reports it. The weights share the quantity
/// type of the request, so that request and response agree on units; the
/// timestamps are kept as the text the service sent.
#[derive(Debug)]
pub struct BookingResponse<T, U> {
    pub id: u32,
    pub status: BookingStatus,
    pub booked_at: String,
    /// Expected to be `sender`.
    pub booked_by: String,
    pub created_at: String,
    pub updated_at: String,
    pub declared_value: U,
    pub insured_value: U,
    pub description: Option<String>,
    pub items: Vec<Product<T, U>>,
    pub label: String,
    pub quotes: Vec<Service<U>>,
    pub sender: Account,
    pub receiver: Account,
    pub pickup_window: Vec<String>,
    /// The carrier's consignment note, which differs from the id.
    pub connote: String,
    pub charged_weight: T,
    pub scanned_weight: T,
    pub special_instructions: String,
    pub tailgate_delivery: bool,
}

} // verus!
