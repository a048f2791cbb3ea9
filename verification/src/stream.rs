//! The buffer of the duplex stream adapter: bytes of inbound transport
//! messages that the byte-stream reader has not consumed yet. The storage
//! is a `BytesMut` of the `bytes` crate.

use bytes::BufMut;
use bytes::BytesMut;
use vstd::prelude::*;

verus! {

/// The growable byte buffer of the `bytes` crate.
#[verifier::external_type_specification]
#[verifier::external_body]
pub struct ExBytesMut(bytes::BytesMut);

/// The bytes that a buffer holds, oldest first.
pub uninterp spec fn contents(buffer: BytesMut) -> Seq<u8>;

/// Calls `BytesMut::new`. Trusted: the new buffer holds nothing.
#[verifier::external_body]
pub(crate) fn bytes_new() -> (b: BytesMut)
    ensures
        contents(b) == Seq::<u8>::empty(),
{
    BytesMut::new()
}

/// Calls `BytesMut::len`. Trusted: the result is the number of bytes held.
#[verifier::external_body]
pub(crate) fn bytes_len(b: &BytesMut) -> (n: usize)
    ensures
        n == contents(*b).len(),
{
    b.len()
}

/// Calls `BufMut::put_slice` on a `BytesMut`. Trusted: the bytes of `src`
/// are appended behind what the buffer held.
#[verifier::external_body]
pub(crate) fn bytes_put_slice(b: &mut BytesMut, src: &[u8])
    requires
        contents(*old(b)).len() + src@.len() <= isize::MAX,
    ensures
        contents(*final(b)) == contents(*old(b)) + src@,
{
    b.put_slice(src)
}

/// Calls `BytesMut::split_to`. Trusted: the first `at` bytes leave the
/// buffer and are returned; the rest stays, in order.
#[verifier::external_body]
pub(crate) fn bytes_split_to(b: &mut BytesMut, at: usize) -> (head: Vec<u8>)
    requires
        at <= contents(*old(b)).len(),
    ensures
        head@ == contents(*old(b)).take(at as int),
        contents(*final(b)) == contents(*old(b)).skip(at as int),
{
    b.split_to(at).to_vec()
}

/// What the inbound side of the transport gave when it was asked for the
/// next message.
pub enum Inbound {
    /// A message arrived, with these bytes.
    Message(Vec<u8>),
    /// Nothing has arrived yet.
    Pending,
    /// The source has ended, closed or failed.
    Ended,
}

/// What a read does after the inbound side was asked.
#[derive(Clone, Copy, Debug, PartialEq, Eq, Structural)]
pub enum ReadStep {
    /// Bytes were buffered: try to read again.
    Retry,
    /// Suspend until the source wakes the reader.
    Suspend,
    /// The stream is at its end: the read gives no bytes.
    End,
}

/// The adapter's buffer.
pub struct RelayBuffer {
    pub buffer: BytesMut,
}

impl View for RelayBuffer {
    type V = Seq<u8>;

    open spec fn view(&self) -> Seq<u8> {
        contents(self.buffer)
    }
}

/// How many bytes a read hands out: as many as are buffered, and no more
/// than the reader has room for.
pub open spec fn read_size(buffered: int, room: int) -> int {
    if buffered <= room {
        buffered
    } else {
        room
    }
}

impl RelayBuffer {
    /// An empty buffer.
    pub fn new() -> (r: Self)
        ensures
            r@ == Seq::<u8>::empty(),
    {
        RelayBuffer { buffer: bytes_new() }
    }

    /// The number of buffered bytes.
    pub fn len(&self) -> (n: usize)
        ensures
            n == self@.len(),
    {
        bytes_len(&self.buffer)
    }

    /// Appends the bytes of one inbound message. A message that would grow
    /// the buffer beyond what can be addressed is refused and changes
    /// nothing.
    pub fn push_message(&mut self, msg: &[u8]) -> (ok: bool)
        ensures
            ok == (old(self)@.len() + msg@.len() <= isize::MAX),
            ok ==> final(self)@ == old(self)@ + msg@,
            !ok ==> final(self)@ == old(self)@,
    {
        let held: usize = bytes_len(&self.buffer);
        let limit: usize = isize::MAX as usize;
        if msg.len() > limit || held > limit - msg.len() {
            return false;
        }
        bytes_put_slice(&mut self.buffer, msg);
        true
    }

    /// Hands out the oldest buffered bytes, at most `room` of them. Gives
    /// `None`, and changes nothing, where no byte can be handed out.
    pub fn read(&mut self, room: usize) -> (r: Option<Vec<u8>>)
        ensures
            r is Some <==> read_size(old(self)@.len() as int, room as int) > 0,
            r matches Some(bytes) ==> bytes@ == old(self)@.take(
                read_size(old(self)@.len() as int, room as int),
            ) && final(self)@ == old(self)@.skip(read_size(old(self)@.len() as int, room as int)),
            r is None ==> final(self)@ == old(self)@,
    {
        let held: usize = bytes_len(&self.buffer);
        let size: usize = if held <= room {
            held
        } else {
            room
        };
        if size > 0 {
            Some(bytes_split_to(&mut self.buffer, size))
        } else {
            None
        }
    }

    /// Hands out exactly `n` bytes where that many are buffered.
    pub fn read_exact(&mut self, n: usize) -> (r: Option<Vec<u8>>)
        ensures
            r is Some <==> n <= old(self)@.len(),
            r matches Some(bytes) ==> bytes@ == old(self)@.take(n as int) && final(self)@ == old(
                self,
            )@.skip(n as int),
            r is None ==> final(self)@ == old(self)@,
    {
        if n <= bytes_len(&self.buffer) {
            Some(bytes_split_to(&mut self.buffer, n))
        } else {
            None
        }
    }

    /// Takes in what the inbound side gave after a read found nothing to
    /// hand out: a message is buffered and the read tried again, a source
    /// that is not ready suspends the read, and an ended source ends it.
    pub fn on_inbound(&mut self, inbound: Inbound) -> (step: ReadStep)
        ensures
            match inbound {
                Inbound::Message(msg) => if old(self)@.len() + msg@.len() <= isize::MAX {
                    step == ReadStep::Retry && final(self)@ == old(self)@ + msg@
                } else {
                    step == ReadStep::End && final(self)@ == old(self)@
                },
                Inbound::Pending => step == ReadStep::Suspend && final(self)@ == old(self)@,
                Inbound::Ended => step == ReadStep::End && final(self)@ == old(self)@,
            },
    {
        match inbound {
            Inbound::Message(msg) => {
                if self.push_message(msg.as_slice()) {
                    ReadStep::Retry
                } else {
                    ReadStep::End
                }
            },
            Inbound::Pending => ReadStep::Suspend,
            Inbound::Ended => ReadStep::End,
        }
    }
}

} // verus!
