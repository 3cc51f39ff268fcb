//! Typed client library for a shipping quote and booking service: the data
//! model of accounts, products and bookings, the lifecycle statuses with their
//! wire tokens, and the decisions of the authentication protocol.
pub mod account;
pub mod booking;
pub mod error;
pub mod order;
pub mod product;
pub mod session;
pub mod text;

pub use account::{Account, AuthenticateWith, Member};
pub use booking::{BookingRequest, BookingResponse, BookingStatus};
pub use error::Error;
pub use order::OrderStatus;
pub use product::{Dimensions, Product, Service};
pub use session::{AuthState, TransportAuth};
