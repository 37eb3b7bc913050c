//! Subscriber lifecycle for a mailing list: a record is created pending, a
//! confirmation token is issued for it, the token is presented before it
//! expires, and the record can be deactivated at any time.

pub mod api;
pub mod codec;
pub mod confirmation;
pub mod deactivation;
pub mod email;
pub mod ident;
pub mod issuer;
pub mod json;
pub mod laws;
pub mod query;
pub mod record;
pub mod store;
pub mod subscriber;
pub mod subscription;
pub mod time;

pub use api::{create_response, ApiResponse, SubscribeRequest, UnsubscribeRequest};
pub use codec::TABLE_NAME;
pub use subscriber::Subscriber;
