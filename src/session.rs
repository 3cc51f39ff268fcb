use vstd::prelude::*;

use crate::account::AuthenticateWith;
use crate::error::Error;

verus! {

/// Base address of the production service.
pub const SERVICE_ENDPOINT: &'static str = "https://www.transdirect.com.au/api/";

/// Base address of the service's mock, for test builds.
pub const MOCK_ENDPOINT: &'static str = "https://private-anon-a28d0f1a72-transdirectapiv4.apiary-mock.com/api/";

/// The header that carries an API key.
pub const API_KEY_HEADER: &'static str = "Api-key";

/// What the transport must be set up with before the identity probe.
#[derive(Debug, PartialEq, Eq)]
pub enum TransportAuth<'a> {
    /// HTTP basic authentication, with a user name and a password.
    Basic(&'a str, &'a str),
    /// A request header, by name and value.
    Header(&'static str, &'a str),
}

/// Basic credentials go to basic authentication; an API key goes in the
/// `Api-key` header.
pub fn transport_auth<'a>(auth: &AuthenticateWith<'a>) -> (r: TransportAuth<'a>)
    ensures
        match *auth {
            AuthenticateWith::Basic(user, password) => r == TransportAuth::Basic(user, password),
            AuthenticateWith::APIKey(key) => r matches TransportAuth::Header(name, value) && name@
                == "Api-key"@ && value == key,
        },
{
    match auth {
        AuthenticateWith::Basic(user, password) => TransportAuth::Basic(user, password),
        AuthenticateWith::APIKey(key) => TransportAuth::Header(API_KEY_HEADER, key),
    }
}

/// Folds a transport failure, whatever its cause, into an HTTP error that
/// carries its description; a success passes through.
pub fn from_transport<T>(outcome: Result<T, String>) -> (r: Result<T, Error>)
    ensures
        match outcome {
            Ok(v) => r == Ok::<T, Error>(v),
            Err(description) => r == Err::<T, Error>(Error::HTTPError(description)),
        },
{
    match outcome {
        Ok(v) => Ok(v),
        Err(description) => Err(Error::HTTPError(description)),
    }
}

/// Whether a client's credentials have been accepted. A client starts
/// unauthenticated and, once authenticated, stays so.
#[derive(Debug, Clone, Copy, PartialEq, Eq, Structural)]
pub enum AuthState {
    Unauthenticated,
    Authenticated,
}

impl AuthState {
    /// The state of a new client.
    pub fn new() -> (r: AuthState)
        ensures
            r == AuthState::Unauthenticated,
    {
        AuthState::Unauthenticated
    }

    pub fn is_authenticated(&self) -> (r: bool)
        ensures
            r == (*self == AuthState::Authenticated),
    {
        match self {
            AuthState::Authenticated => true,
            AuthState::Unauthenticated => false,
        }
    }

    /// The state after an identity probe with the given outcome.
    pub open spec fn after_probe(self, probe: Result<(), String>) -> AuthState {
        match probe {
            Ok(()) => AuthState::Authenticated,
            Err(_) => self,
        }
    }

    /// Takes the outcome of the identity probe, with a failure given by its
    /// description. An accepted probe authenticates the client; a failed one
    /// leaves the state as it was and is reported as an HTTP error.
    pub fn record_probe(&mut self, probe: Result<(), String>) -> (r: Result<(), Error>)
        ensures
            *final(self) == old(self).after_probe(probe),
            match probe {
                Ok(()) => *final(self) == AuthState::Authenticated && r == Ok::<(), Error>(()),
                Err(description) => *final(self) == *old(self) && r == Err::<(), Error>(
                    Error::HTTPError(description),
                ),
            },
    {
        let r = from_transport(probe);
        if r.is_ok() {
            *self = AuthState::Authenticated;
        }
        r
    }
}

impl Default for AuthState {
    fn default() -> (r: AuthState)
        ensures
            r == AuthState::Unauthenticated,
    {
        AuthState::Unauthenticated
    }
}

/// Once authenticated, a client stays authenticated whatever a later probe
/// reports.
pub proof fn lemma_authenticated_is_terminal(probe: Result<(), String>)
    ensures
        AuthState::Authenticated.after_probe(probe) == AuthState::Authenticated,
{
}

/// A rejected probe never authenticates a client that was not.
pub proof fn lemma_rejected_probe_keeps_unauthenticated(description: String)
    ensures
        AuthState::Unauthenticated.after_probe(Err(description)) == AuthState::Unauthenticated,
{
}

} // verus!
