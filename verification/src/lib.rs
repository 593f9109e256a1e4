//! Core types of a mailer: addresses, envelopes, message payloads, the
//! sendable email that bundles them, and the contract every transport obeys.

pub mod address;
pub mod email;
pub mod envelope;
pub mod error;
pub mod message;

pub use address::EmailAddress;
pub use email::{
    drained_bytes, is_invalid_data, is_text_of, is_text_of_email, text_of_drained, SendableEmail,
    Transport,
};
pub use envelope::{Envelope, EnvelopeView};
pub use error::{EmailResult, Error};
pub use message::{BoxedReader, ByteCursor, Message};
