//! The payload of an email: bytes held in memory, or a stream that is read once.

use vstd::prelude::*;

verus! {

/// `std::io::Error`, carried through as an opaque value.
#[verifier::external_type_specification]
#[verifier::external_body]
pub struct ExIoError(std::io::Error);

/// A streaming byte source that can be handed to another thread.
///
/// Holds a `Box<dyn std::io::Read + Send>`. Verus takes no trait object of
/// two traits, so it does not look inside; nothing is assumed of the reader,
/// and what it will yield is not known before it is read.
#[verifier::external_body]
pub struct BoxedReader {
    inner: Box<dyn std::io::Read + Send>,
}

impl BoxedReader {
    /// Boxes a reader. Calls `Box::new`; there is nothing to state of the result.
    #[verifier::external_body]
    pub fn new<R: std::io::Read + Send + 'static>(reader: R) -> BoxedReader {
        BoxedReader { inner: Box::new(reader) }
    }

    /// Calls `std::io::Read::read` on the boxed source. The source decides what
    /// comes back; only the buffer's length is known to stay.
    #[verifier::external_body]
    fn read(&mut self, buf: &mut [u8]) -> (r: Result<usize, std::io::Error>)
        ensures
            final(buf)@.len() == old(buf)@.len(),
    {
        self.inner.read(buf)
    }

    /// Calls `std::io::Read::read_to_end` on the boxed source with an empty
    /// buffer and hands back what was read, or the source's error. Nothing is
    /// claimed of either.
    #[verifier::external_body]
    fn read_to_end(&mut self) -> (r: Result<Vec<u8>, std::io::Error>) {
        let mut bytes = Vec::new();
        match self.inner.read_to_end(&mut bytes) {
            Ok(_) => Ok(bytes),
            Err(e) => Err(e),
        }
    }
}

/// Bytes in memory with a read position.
pub struct ByteCursor {
    bytes: Vec<u8>,
    position: usize,
}

impl ByteCursor {
    /// The position never passes the end of the bytes.
    #[verifier::type_invariant]
    closed spec fn position_in_bounds(&self) -> bool {
        self.position <= self.bytes@.len()
    }

    /// All the bytes, read or not.
    pub closed spec fn bytes(&self) -> Seq<u8> {
        self.bytes@
    }

    /// How many bytes have been read.
    pub closed spec fn position(&self) -> nat {
        self.position as nat
    }

    /// The bytes that have not been read yet.
    pub open spec fn remaining(&self) -> Seq<u8> {
        self.bytes().skip(self.position() as int)
    }

    /// The cursor over `bytes` of which nothing has been read.
    pub closed spec fn at_start(bytes: Vec<u8>) -> ByteCursor {
        ByteCursor { bytes, position: 0 }
    }

    /// A cursor at the start of `bytes`.
    pub fn new(bytes: Vec<u8>) -> (cursor: ByteCursor)
        ensures
            cursor == Self::at_start(bytes),
            cursor.bytes() == bytes@,
            cursor.position() == 0,
            cursor.remaining() == bytes@,
    {
        assert(bytes@.skip(0) =~= bytes@);
        ByteCursor { bytes, position: 0 }
    }

    /// Copies the next bytes into `buf`, as many as fit and are left, and
    /// moves the position past them.
    pub fn read(&mut self, buf: &mut [u8]) -> (n: usize)
        ensures
            old(self).position() <= old(self).bytes().len(),
            n == vstd::math::min(old(buf)@.len() as int, old(self).remaining().len() as int),
            final(self).bytes() == old(self).bytes(),
            final(self).position() == old(self).position() + n,
            final(buf)@ == old(self).remaining().take(n as int) + old(buf)@.skip(n as int),
    {
        proof {
            use_type_invariant(&*self);
        }
        let left: usize = self.bytes.len() - self.position;
        let n: usize = if buf.len() < left {
            buf.len()
        } else {
            left
        };
        let start: usize = self.position;
        let mut i: usize = 0;
        while i < n
            invariant
                i <= n,
                start + n <= self.bytes@.len() <= usize::MAX,
                n <= buf@.len(),
                buf@.len() == old(buf)@.len(),
                forall|j: int| 0 <= j < i ==> buf@[j] == self.bytes@[start + j],
                forall|j: int| i <= j < buf@.len() ==> buf@[j] == old(buf)@[j],
            decreases n - i,
        {
            buf[i] = self.bytes[start + i];
            i += 1;
        }
        self.position = start + n;
        assert(buf@ =~= old(self).remaining().take(n as int) + old(buf)@.skip(n as int));
        n
    }

    /// Moves the position back to the first byte, so that all bytes are
    /// read again.
    pub fn rewind(&mut self)
        ensures
            final(self).bytes() == old(self).bytes(),
            final(self).position() == 0,
            final(self).remaining() == old(self).bytes(),
    {
        self.position = 0;
        assert(self.bytes@.skip(0) =~= self.bytes@);
    }

    /// Gives up the cursor for the bytes that have not been read yet.
    pub fn into_remaining(self) -> (rest: Vec<u8>)
        ensures
            self.position() <= self.bytes().len(),
            rest@ == self.remaining(),
    {
        proof {
            use_type_invariant(&self);
        }
        let mut bytes = self.bytes;
        if self.position == 0 {
            assert(bytes@.skip(0) =~= bytes@);
            bytes
        } else {
            bytes.split_off(self.position)
        }
    }
}

/// A cursor at the start of its bytes has all of them left to read.
pub proof fn lemma_at_start_all_remains(bytes: Vec<u8>)
    ensures
        ByteCursor::at_start(bytes).bytes() == bytes@,
        ByteCursor::at_start(bytes).position() == 0,
        ByteCursor::at_start(bytes).remaining() == bytes@,
{
    assert(bytes@.skip(0) =~= bytes@);
}

/// Once every byte has been read, reading gives no byte more: a chunk of
/// length zero, whatever room the buffer has.
pub proof fn lemma_nothing_left_at_end(cursor: ByteCursor, room: nat)
    requires
        cursor.position() == cursor.bytes().len(),
    ensures
        vstd::math::min(room as int, cursor.remaining().len() as int) == 0,
{
}

/// The payload of an email.
pub enum Message {
    /// A stream, read once.
    Reader(BoxedReader),
    /// Bytes in memory.
    Bytes(ByteCursor),
}

impl Message {
    /// Reads the next chunk into `buf` and returns how many bytes it holds;
    /// zero at the end of the payload.
    ///
    /// Bytes in memory are copied as far as `buf` has room and never fail. A
    /// stream decides for itself what it yields.
    pub fn read(&mut self, buf: &mut [u8]) -> (r: Result<usize, std::io::Error>)
        ensures
            final(buf)@.len() == old(buf)@.len(),
            *old(self) is Reader ==> *final(self) is Reader,
            *old(self) matches Message::Bytes(before) ==> {
                &&& *final(self) matches Message::Bytes(after)
                &&& r matches Ok(n)
                &&& before.position() <= before.bytes().len()
                &&& n == vstd::math::min(old(buf)@.len() as int, before.remaining().len() as int)
                &&& after.bytes() == before.bytes()
                &&& after.position() == before.position() + n
                &&& final(buf)@ == before.remaining().take(n as int) + old(buf)@.skip(n as int)
            },
    {
        match self {
            Message::Reader(reader) => reader.read(buf),
            Message::Bytes(cursor) => Ok(cursor.read(buf)),
        }
    }

    /// Reads the payload to its end and returns the bytes that were left.
    ///
    /// Bytes in memory give what follows the position. A stream gives what it
    /// yields, or its error.
    pub fn drain(self) -> (r: Result<Vec<u8>, std::io::Error>)
        ensures
            self matches Message::Bytes(cursor) ==> (r matches Ok(rest) && rest@
                == cursor.remaining()),
    {
        match self {
            Message::Reader(reader) => {
                let mut reader = reader;
                reader.read_to_end()
            },
            Message::Bytes(cursor) => Ok(cursor.into_remaining()),
        }
    }
}

} // verus!
