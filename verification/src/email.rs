//! The unit of work that a transport takes: envelope, identifier and payload.

use crate::envelope::Envelope;
use crate::message::{lemma_at_start_all_remains, BoxedReader, ByteCursor, Message};
use vstd::prelude::*;
use vstd::utf8::{decode_utf8, valid_utf8};

verus! {

/// Whether an I/O error says that data was malformed: whether
/// `std::io::Error::kind` gives `ErrorKind::InvalidData` for it.
pub uninterp spec fn is_invalid_data(error: std::io::Error) -> bool;

/// Calls `std::io::Error::new` with `ErrorKind::InvalidData`, the kind that
/// the new error then reports.
#[verifier::external_body]
fn invalid_utf8_error() -> (error: std::io::Error)
    ensures
        is_invalid_data(error),
{
    std::io::Error::new(std::io::ErrorKind::InvalidData, "stream did not contain valid UTF-8")
}

/// Calls `String::from_utf8`, which gives the text that the bytes encode if
/// they are valid UTF-8 and refuses them otherwise.
#[verifier::external_body]
fn string_from_utf8(bytes: Vec<u8>) -> (text: Option<String>)
    ensures
        text is Some <==> valid_utf8(bytes@),
        text matches Some(s) ==> s@ == decode_utf8(bytes@),
{
    match String::from_utf8(bytes) {
        Ok(text) => Some(text),
        Err(_) => None,
    }
}

/// Whether `text` is what a drained payload gives as text: the error of a
/// failed read, the decoded text of valid UTF-8, or an invalid-data error
/// for any other bytes.
pub open spec fn is_text_of(
    text: Result<String, std::io::Error>,
    drained: Result<Seq<u8>, std::io::Error>,
) -> bool {
    match drained {
        Err(read_error) => text == Err::<String, std::io::Error>(read_error),
        Ok(bytes) => if valid_utf8(bytes) {
            text matches Ok(s) && s@ == decode_utf8(bytes)
        } else {
            text matches Err(error) && is_invalid_data(error)
        },
    }
}

/// The bytes of a drained payload, or the error that draining gave.
pub open spec fn drained_bytes(drained: Result<Vec<u8>, std::io::Error>) -> Result<
    Seq<u8>,
    std::io::Error,
> {
    match drained {
        Ok(bytes) => Ok(bytes@),
        Err(error) => Err(error),
    }
}

/// Turns a drained payload into text.
///
/// A failed read stays the failure it was; bytes that are valid UTF-8 become
/// their text; other bytes give an invalid-data error.
pub fn text_of_drained(drained: Result<Vec<u8>, std::io::Error>) -> (text: Result<
    String,
    std::io::Error,
>)
    ensures
        is_text_of(text, drained_bytes(drained)),
{
    match drained {
        Err(read_error) => Err(read_error),
        Ok(bytes) => match string_from_utf8(bytes) {
            Some(decoded) => Ok(decoded),
            None => Err(invalid_utf8_error()),
        },
    }
}

/// Sendable email structure
pub struct SendableEmail {
    envelope: Envelope,
    message_id: String,
    message: Message,
}

impl SendableEmail {
    /// The envelope of the email.
    pub closed spec fn spec_envelope(&self) -> Envelope {
        self.envelope
    }

    /// The identifier of the email.
    pub closed spec fn spec_message_id(&self) -> Seq<char> {
        self.message_id@
    }

    /// The payload of the email.
    pub closed spec fn spec_message(&self) -> Message {
        self.message
    }

    /// The email made of an envelope, an identifier and a payload.
    pub closed spec fn assembled(envelope: Envelope, message_id: String, message: Message) -> SendableEmail {
        SendableEmail { envelope, message_id, message }
    }

    /// An email whose payload is `message`, to be read from its first byte.
    pub fn new(envelope: Envelope, message_id: String, message: Vec<u8>) -> (email: SendableEmail)
        ensures
            email == Self::assembled(
                envelope,
                message_id,
                Message::Bytes(ByteCursor::at_start(message)),
            ),
            email.spec_envelope() == envelope,
            email.spec_message_id() == message_id@,
            email.spec_message() matches Message::Bytes(cursor) && cursor.remaining() == message@,
    {
        SendableEmail { envelope, message_id, message: Message::Bytes(ByteCursor::new(message)) }
    }

    /// An email whose payload is read from a stream.
    pub fn new_with_reader(envelope: Envelope, message_id: String, message: BoxedReader) -> (email:
        SendableEmail)
        ensures
            email == Self::assembled(envelope, message_id, Message::Reader(message)),
            email.spec_envelope() == envelope,
            email.spec_message_id() == message_id@,
            email.spec_message() == Message::Reader(message),
    {
        SendableEmail { envelope, message_id, message: Message::Reader(message) }
    }

    /// The envelope of the email.
    pub fn envelope(&self) -> (envelope: &Envelope)
        ensures
            *envelope == self.spec_envelope(),
    {
        &self.envelope
    }

    /// The identifier of the email.
    pub fn message_id(&self) -> (message_id: &str)
        ensures
            message_id@ == self.spec_message_id(),
    {
        self.message_id.as_str()
    }

    /// Gives up the email for its payload.
    pub fn message(self) -> (message: Message)
        ensures
            message == self.spec_message(),
    {
        self.message
    }

    /// Gives up the email, reads its payload to the end and returns it as text.
    ///
    /// For bytes in memory the outcome is fixed by the bytes: their text if
    /// they are valid UTF-8, an invalid-data error if not. For a stream the
    /// outcome is that of `text_of_drained` on whatever the stream gave.
    pub fn message_to_string(self) -> (text: Result<String, std::io::Error>)
        ensures
            is_text_of_email(text, self),
    {
        text_of_drained(self.message.drain())
    }
}

/// An email holds the envelope, the identifier and the payload that it was
/// made of, each unchanged.
pub proof fn lemma_assembled_keeps_parts(envelope: Envelope, message_id: String, message: Message)
    ensures
        SendableEmail::assembled(envelope, message_id, message).spec_envelope() == envelope,
        SendableEmail::assembled(envelope, message_id, message).spec_message_id() == message_id@,
        SendableEmail::assembled(envelope, message_id, message).spec_message() == message,
{
}

/// Whether `text` is what reading `email` to its end gives as text. For a
/// payload in memory the bytes that are left decide; a stream is not known
/// before it is read.
pub open spec fn is_text_of_email(text: Result<String, std::io::Error>, email: SendableEmail) -> bool {
    email.spec_message() matches Message::Bytes(cursor) ==> is_text_of(text, Ok(cursor.remaining()))
}

/// The text of an email made from bytes in memory is fixed by those bytes:
/// what they encode if they are valid UTF-8, an invalid-data error if not.
pub proof fn lemma_text_of_bytes(
    envelope: Envelope,
    message_id: String,
    bytes: Vec<u8>,
    text: Result<String, std::io::Error>,
)
    requires
        is_text_of_email(
            text,
            SendableEmail::assembled(
                envelope,
                message_id,
                Message::Bytes(ByteCursor::at_start(bytes)),
            ),
        ),
    ensures
        valid_utf8(bytes@) ==> (text matches Ok(s) && s@ == decode_utf8(bytes@)),
        !valid_utf8(bytes@) ==> (text matches Err(error) && is_invalid_data(error)),
{
    lemma_at_start_all_remains(bytes);
}

/// Transport method for emails
pub trait Transport<'a> {
    /// Result type for the transport
    type Result;

    /// Sends the email
    fn send(&mut self, email: SendableEmail) -> Self::Result;
}

} // verus!
