//! Session-management core of a SIP client: registration with digest
//! authentication, out-of-dialog messaging and CANCEL response generation.

pub mod auth;
pub mod config;
pub mod error;
pub mod message;
pub mod messaging;
pub mod phone;
pub mod registration;

pub use auth::digest_answer;
pub use config::{HeaderWriteConfig, LIBRARY_VERSION};
pub use error::{ChallengeFault, Error};
pub use message::{
    AuthChallenge, AuthResponse, ContentType, Header, Headers, Method, MissingField, NamedHeader,
    RequestGenerator, ResponseGenerator, SipMessage, Uri, ViaHeader,
};
pub use messaging::MessageWriter;
pub use phone::{dialog_headers_of, SoftPhone};
pub use registration::{challenge_of, DigestChallenge, RegistrationManager};
