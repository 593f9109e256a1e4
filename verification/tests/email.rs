use lettre::{
    text_of_drained, BoxedReader, ByteCursor, EmailAddress, Envelope, Message, SendableEmail,
    Transport,
};
use std::io::{Error, ErrorKind, Read};

/// Yields its chunks one per call, then the end of the stream.
struct Chunks {
    chunks: Vec<Vec<u8>>,
    next: usize,
}

impl Chunks {
    fn of(chunks: &[&str]) -> Chunks {
        Chunks { chunks: chunks.iter().map(|c| c.as_bytes().to_vec()).collect(), next: 0 }
    }
}

impl Read for Chunks {
    fn read(&mut self, buf: &mut [u8]) -> std::io::Result<usize> {
        if self.next >= self.chunks.len() {
            return Ok(0);
        }
        let chunk = &self.chunks[self.next];
        buf[..chunk.len()].copy_from_slice(chunk);
        self.next += 1;
        Ok(chunk.len())
    }
}

/// Yields one chunk, then fails.
struct Broken {
    served: bool,
}

impl Read for Broken {
    fn read(&mut self, buf: &mut [u8]) -> std::io::Result<usize> {
        if self.served {
            return Err(Error::new(ErrorKind::ConnectionReset, "gone"));
        }
        self.served = true;
        buf[0] = b'x';
        Ok(1)
    }
}

struct StubTransport {
    sent: usize,
}

impl<'a> Transport<'a> for StubTransport {
    type Result = Result<(), ()>;

    fn send(&mut self, email: SendableEmail) -> Self::Result {
        let mut message = email.message();
        let mut buf = [0u8; 16];
        while message.read(&mut buf).map_err(|_| ())? > 0 {}
        self.sent += 1;
        Ok(())
    }
}

fn envelope() -> Envelope {
    Envelope::new(
        Some(EmailAddress::new("user@localhost".to_string()).unwrap()),
        vec![EmailAddress::new("root@localhost".to_string()).unwrap()],
    )
    .unwrap()
}

fn from_bytes(bytes: &[u8]) -> SendableEmail {
    SendableEmail::new(envelope(), "id".to_string(), bytes.to_vec())
}

fn from_reader<R: Read + Send + 'static>(reader: R) -> SendableEmail {
    SendableEmail::new_with_reader(envelope(), "id".to_string(), BoxedReader::new(reader))
}

fn is_send<T: Send>(_: &T) -> bool {
    true
}

#[test]
fn bytes_to_string() {
    assert_eq!(from_bytes(b"Hello").message_to_string().unwrap(), "Hello");
}

#[test]
fn empty_bytes_to_string() {
    assert_eq!(from_bytes(b"").message_to_string().unwrap(), "");
}

#[test]
fn multibyte_bytes_to_string() {
    let bytes = [0x68, 0xc3, 0xa9, 0xe4, 0xb8, 0x96, 0xf0, 0x9f, 0x93, 0xa7];
    assert_eq!(from_bytes(&bytes).message_to_string().unwrap(), "h\u{e9}\u{4e16}\u{1f4e7}");
}

#[test]
fn invalid_utf8_bytes_fail() {
    let error = from_bytes(&[0x48, 0xff, 0x65]).message_to_string().unwrap_err();
    assert_eq!(error.kind(), ErrorKind::InvalidData);
}

#[test]
fn truncated_utf8_bytes_fail() {
    let error = from_bytes(&[0x48, 0xc3]).message_to_string().unwrap_err();
    assert_eq!(error.kind(), ErrorKind::InvalidData);
}

#[test]
fn reader_chunks_to_string() {
    assert_eq!(from_reader(Chunks::of(&["He", "llo"])).message_to_string().unwrap(), "Hello");
}

#[test]
fn boxed_trait_object_to_string() {
    let boxed: Box<dyn Read + Send> = Box::new(Chunks::of(&["He", "llo"]));
    assert_eq!(from_reader(boxed).message_to_string().unwrap(), "Hello");
}

#[test]
fn reader_with_invalid_utf8_fails() {
    let reader = std::io::Cursor::new(vec![0x80u8, 0x80]);
    let error = from_reader(reader).message_to_string().unwrap_err();
    assert_eq!(error.kind(), ErrorKind::InvalidData);
}

#[test]
fn reader_failure_is_handed_on() {
    let error = from_reader(Broken { served: false }).message_to_string().unwrap_err();
    assert_eq!(error.kind(), ErrorKind::ConnectionReset);
}

#[test]
fn message_id_is_kept() {
    let id = "<1234.\u{e9}@host>  ";
    let email = SendableEmail::new(envelope(), id.to_string(), b"body".to_vec());
    assert_eq!(email.message_id(), id);
    assert_eq!(email.message_id().as_bytes(), id.as_bytes());
    assert_eq!(email.message_id(), id);
    let streamed =
        SendableEmail::new_with_reader(envelope(), String::new(), BoxedReader::new(std::io::empty()));
    assert_eq!(streamed.message_id(), "");
}

#[test]
fn envelope_is_kept() {
    let email = from_bytes(b"body");
    assert_eq!(*email.envelope(), envelope());
    assert_eq!(*email.envelope(), envelope());
    let streamed = from_reader(std::io::empty());
    assert_eq!(*streamed.envelope(), envelope());
}

#[test]
fn message_is_the_bytes_variant() {
    let message = from_bytes(b"Hello").message();
    assert!(matches!(message, Message::Bytes(_)));
    assert_eq!(message.drain().unwrap(), b"Hello".to_vec());
}

#[test]
fn message_is_the_reader_variant() {
    let message = from_reader(Chunks::of(&["He", "llo"])).message();
    assert!(matches!(message, Message::Reader(_)));
    assert_eq!(message.drain().unwrap(), b"Hello".to_vec());
}

#[test]
fn bytes_are_read_in_chunks() {
    let mut message = from_bytes(b"Hello").message();
    let mut buf = [b'.'; 3];
    assert_eq!(message.read(&mut buf).unwrap(), 3);
    assert_eq!(&buf, b"Hel");
    assert_eq!(message.read(&mut buf).unwrap(), 2);
    assert_eq!(&buf, b"lol");
    assert_eq!(message.read(&mut buf).unwrap(), 0);
    assert_eq!(&buf, b"lol");
    assert_eq!(message.read(&mut buf).unwrap(), 0);
}

#[test]
fn read_into_empty_buffer() {
    let mut message = from_bytes(b"Hello").message();
    let mut none: [u8; 0] = [];
    assert_eq!(message.read(&mut none).unwrap(), 0);
    assert_eq!(message.drain().unwrap(), b"Hello".to_vec());
}

#[test]
fn read_with_room_to_spare() {
    let mut cursor = ByteCursor::new(b"Hi".to_vec());
    let mut buf = [b'.'; 4];
    assert_eq!(cursor.read(&mut buf), 2);
    assert_eq!(&buf, b"Hi..");
    assert_eq!(cursor.into_remaining(), Vec::<u8>::new());
}

#[test]
fn drain_gives_what_is_left() {
    let mut message = from_bytes(b"Hello").message();
    let mut buf = [0u8; 2];
    assert_eq!(message.read(&mut buf).unwrap(), 2);
    assert_eq!(message.drain().unwrap(), b"llo".to_vec());
}

#[test]
fn reader_chunks_are_read_one_by_one() {
    let mut message = from_reader(Chunks::of(&["He", "llo"])).message();
    let mut buf = [0u8; 8];
    assert_eq!(message.read(&mut buf).unwrap(), 2);
    assert_eq!(&buf[..2], b"He");
    assert_eq!(message.read(&mut buf).unwrap(), 3);
    assert_eq!(&buf[..3], b"llo");
    assert_eq!(message.read(&mut buf).unwrap(), 0);
    assert_eq!(message.read(&mut buf).unwrap(), 0);
}

#[test]
fn text_of_drained_decodes_or_fails() {
    assert_eq!(text_of_drained(Ok(b"Hello".to_vec())).unwrap(), "Hello");
    assert_eq!(text_of_drained(Ok(Vec::new())).unwrap(), "");
    let invalid = text_of_drained(Ok(vec![0xc0, 0x80])).unwrap_err();
    assert_eq!(invalid.kind(), ErrorKind::InvalidData);
    let surrogate = text_of_drained(Ok(vec![0xed, 0xa0, 0x80])).unwrap_err();
    assert_eq!(surrogate.kind(), ErrorKind::InvalidData);
    let failed = text_of_drained(Err(Error::new(ErrorKind::TimedOut, "late"))).unwrap_err();
    assert_eq!(failed.kind(), ErrorKind::TimedOut);
    assert_eq!(failed.to_string(), "late");
}

#[test]
fn stub_transport_accepts_emails() {
    let mut transport = StubTransport { sent: 0 };
    assert_eq!(transport.send(from_bytes(b"Hello")), Ok(()));
    assert_eq!(transport.send(from_reader(Chunks::of(&["He", "llo"]))), Ok(()));
    assert_eq!(transport.sent, 2);
}

#[test]
fn emails_can_change_threads() {
    let email = from_reader(Chunks::of(&["He", "llo"]));
    assert!(is_send(&email));
    assert!(is_send(&from_bytes(b"Hello")));
    assert!(is_send(&email.message()));
}

#[test]
fn bytes_can_be_read_again_after_rewind() {
    let mut cursor = ByteCursor::new(b"Hello".to_vec());
    let mut buf = [0u8; 4];
    assert_eq!(cursor.read(&mut buf), 4);
    assert_eq!(&buf, b"Hell");
    cursor.rewind();
    assert_eq!(cursor.read(&mut buf), 4);
    assert_eq!(&buf, b"Hell");
    cursor.rewind();
    assert_eq!(cursor.into_remaining(), b"Hello".to_vec());
}
