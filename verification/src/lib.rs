//! Stateless bearer-token authentication: a credential pair is exchanged for a
//! signed, time-bounded token, and the token is later validated to recover the
//! claims (the identity) it carries.

pub mod auth;
pub mod codec;
pub mod errors;
pub mod model;
pub mod routes;

pub use auth::authenticate;
pub use codec::{decode, encode};
pub use errors::{AuthError, DecodeError, EncodeError};
pub use model::{AuthBody, AuthPayload, Claims, Keys};
pub use routes::{authorize, protected};
