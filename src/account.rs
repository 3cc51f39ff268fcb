use vstd::prelude::*;

verus! {

/// The credentials a client authenticates with: a user name and a password
/// for basic authentication, or an API key.
#[non_exhaustive]
pub enum AuthenticateWith<'a> {
    Basic(&'a str, &'a str),
    APIKey(&'a str),
}

/// The member that the service reports for the credentials in use.
#[derive(Debug, PartialEq, Eq)]
pub struct Member {
    id: u8,
    company_name: String,
    postcode: u8,
    active: bool,
}

impl Member {
    /// The resource that names the member of the credentials in use.
    pub fn get_path() -> (r: String)
        ensures
            r@ == "member"@,
    {
        "member".to_owned()
    }
}

/// A sender or receiver of a booking.
#[derive(Debug, Clone, PartialEq, Eq)]
pub struct Account {
    pub address: String,
    pub email: String,
    pub name: String,
    /// Kept as text: a postcode may start with zero or hold letters.
    pub postcode: String,
    pub state: String,
    pub suburb: String,
    /// The account's category; its wire key is `type`.
    pub kind: String,
    /// Two-letter ISO country code.
    pub country: String,
    pub company_name: String,
}

impl Account {
    /// Every field is the empty string.
    pub open spec fn is_blank(&self) -> bool {
        &&& self.address@ == Seq::<char>::empty()
        &&& self.email@ == Seq::<char>::empty()
        &&& self.name@ == Seq::<char>::empty()
        &&& self.postcode@ == Seq::<char>::empty()
        &&& self.state@ == Seq::<char>::empty()
        &&& self.suburb@ == Seq::<char>::empty()
        &&& self.kind@ == Seq::<char>::empty()
        &&& self.country@ == Seq::<char>::empty()
        &&& self.company_name@ == Seq::<char>::empty()
    }
}

impl Default for Account {
    fn default() -> (r: Account)
        ensures
            r.is_blank(),
    {
        Account {
            address: String::new(),
            email: String::new(),
            name: String::new(),
            postcode: String::new(),
            state: String::new(),
            suburb: String::new(),
            kind: String::new(),
            country: String::new(),
            company_name: String::new(),
        }
    }
}

} // verus!
