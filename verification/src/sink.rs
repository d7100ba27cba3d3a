//! Where the bytes go.

use vstd::prelude::*;

verus! {

/// `std::io::Error`: why a sink did not take a write.
#[verifier::external_type_specification]
#[verifier::external_body]
pub struct ExIoError(std::io::Error);

/// Whether the failures of a sink were `before` what they are `after` a call
/// that returned `r`: a call that succeeds adds none, and a call that fails
/// adds its error, and no other.
pub open spec fn recorded<T>(
    before: Seq<std::io::Error>,
    after: Seq<std::io::Error>,
    r: Result<T, std::io::Error>,
) -> bool {
    match r {
        Ok(_) => after == before,
        Err(error) => after == before.push(error),
    }
}

/// Whether a sink is sure to take `count` more bytes: it takes every write,
/// or it has that much room left.
pub open spec fn takes(infallible: bool, room_left: nat, count: int) -> bool {
    infallible || count <= room_left
}

/// A byte sink that a [`crate::ColoredStream`] can sit on.
///
/// A sink takes bytes in order and keeps them: what it has taken is never
/// taken back. It keeps account of every call that it failed.
pub trait ColorableStream {
    /// Every byte the sink has taken so far, in order.
    spec fn written(&self) -> Seq<u8>;

    /// Whether every write to this sink succeeds.
    spec fn infallible(&self) -> bool;

    /// How many more bytes the sink is sure to take.
    spec fn room_left(&self) -> nat;

    /// How many of the bytes that the sink has taken it still holds back:
    /// they have not reached where the sink sends them yet.
    spec fn held_back(&self) -> nat;

    /// The errors of the calls that the sink has failed, in their order.
    spec fn failures(&self) -> Seq<std::io::Error>;

    /// Hands `buf` to the sink, which takes a first part of it and says how
    /// many bytes that is: all of them, where it is sure to take as many. A
    /// write that fails has taken nothing.
    fn write(&mut self, buf: &[u8]) -> (r: Result<usize, std::io::Error>)
        ensures
            r matches Ok(n) ==> (n <= buf@.len() && final(self).written() == old(self).written()
                + buf@.take(n as int)),
            r is Err ==> final(self).written() == old(self).written(),
            recorded(old(self).failures(), final(self).failures(), r),
            takes(old(self).infallible(), old(self).room_left(), buf@.len() as int) ==> r == Ok::<usize, std::io::Error>(buf.len()),
            r matches Ok(n) ==> final(self).room_left() + n >= old(self).room_left(),
            final(self).infallible() == old(self).infallible(),
    ;

    /// Hands `buf` to the sink. On success the sink has taken all of it; on
    /// failure it has taken the bytes of `buf` up to some point, and none
    /// after it. A sink that is sure to take as many bytes does not fail.
    fn write_all(&mut self, buf: &[u8]) -> (r: Result<(), std::io::Error>)
        ensures
            r is Ok ==> final(self).written() == old(self).written() + buf@,
            old(self).written().is_prefix_of(final(self).written()),
            final(self).written().is_prefix_of(old(self).written() + buf@),
            recorded(old(self).failures(), final(self).failures(), r),
            takes(old(self).infallible(), old(self).room_left(), buf@.len() as int) ==> r is Ok,
            r is Ok ==> final(self).room_left() + buf@.len() >= old(self).room_left(),
            final(self).infallible() == old(self).infallible(),
    ;

    /// Asks the sink to pass on what it holds back. It takes no new byte,
    /// and on success it holds nothing back any more.
    fn flush(&mut self) -> (r: Result<(), std::io::Error>)
        ensures
            final(self).written() == old(self).written(),
            r is Ok ==> final(self).held_back() == 0,
            recorded(old(self).failures(), final(self).failures(), r),
            old(self).infallible() ==> r is Ok,
            final(self).room_left() >= old(self).room_left(),
            final(self).infallible() == old(self).infallible(),
    ;
}

/// A vector takes every byte it is given.
impl ColorableStream for Vec<u8> {
    open spec fn written(&self) -> Seq<u8> {
        self@
    }

    open spec fn infallible(&self) -> bool {
        true
    }

    open spec fn room_left(&self) -> nat {
        0
    }

    open spec fn held_back(&self) -> nat {
        0
    }

    open spec fn failures(&self) -> Seq<std::io::Error> {
        Seq::empty()
    }

    fn write(&mut self, buf: &[u8]) -> (r: Result<usize, std::io::Error>) {
        self.extend_from_slice(buf);
        assert(buf@.take(buf@.len() as int) =~= buf@);
        Ok(buf.len())
    }

    fn write_all(&mut self, buf: &[u8]) -> (r: Result<(), std::io::Error>) {
        self.extend_from_slice(buf);
        Ok(())
    }

    fn flush(&mut self) -> (r: Result<(), std::io::Error>) {
        Ok(())
    }
}

/// `std::io::Error::from` on `std::io::ErrorKind::WriteZero`: the error that
/// the standard library gives when a writer has no room left.
#[verifier::external_body]
fn no_room_left() -> std::io::Error {
    std::io::Error::from(std::io::ErrorKind::WriteZero)
}

/// A buffer with room for a fixed number of bytes. A write that fits is
/// taken; of one that does not, the buffer takes what fits, and where all of
/// it was to be taken, the write fails.
pub struct BoundedBuffer {
    taken: Vec<u8>,
    room: usize,
    failed: Ghost<Seq<std::io::Error>>,
}

impl BoundedBuffer {
    /// The number of bytes the buffer has room for, taken or not.
    pub closed spec fn room(&self) -> nat {
        self.room as nat
    }

    /// An empty buffer with room for `room` bytes.
    pub fn new(room: usize) -> (buffer: Self)
        ensures
            buffer.written() == Seq::<u8>::empty(),
            buffer.room() == room,
            buffer.room_left() == room,
            buffer.failures() == Seq::<std::io::Error>::empty(),
    {
        BoundedBuffer { taken: Vec::new(), room, failed: Ghost(Seq::empty()) }
    }

    /// The bytes that were taken.
    pub fn into_bytes(self) -> (bytes: Vec<u8>)
        ensures
            bytes@ == self.written(),
    {
        self.taken
    }

    fn left(&self) -> (left: usize)
        ensures
            left == self.room_left(),
    {
        if self.taken.len() < self.room {
            self.room - self.taken.len()
        } else {
            0
        }
    }
}

impl ColorableStream for BoundedBuffer {
    closed spec fn written(&self) -> Seq<u8> {
        self.taken@
    }

    open spec fn infallible(&self) -> bool {
        false
    }

    closed spec fn room_left(&self) -> nat {
        if self.taken@.len() < self.room {
            (self.room - self.taken@.len()) as nat
        } else {
            0
        }
    }

    open spec fn held_back(&self) -> nat {
        0
    }

    closed spec fn failures(&self) -> Seq<std::io::Error> {
        self.failed@
    }

    fn write(&mut self, buf: &[u8]) -> (r: Result<usize, std::io::Error>)
        ensures
            r is Ok,
            r->Ok_0 == if buf@.len() <= old(self).room_left() {
                buf@.len()
            } else {
                old(self).room_left()
            },
            final(self).room() == old(self).room(),
            final(self).room_left() == old(self).room_left() - r->Ok_0,
    {
        let left = self.left();
        if buf.len() <= left {
            self.taken.extend_from_slice(buf);
            assert(buf@.take(buf@.len() as int) =~= buf@);
            Ok(buf.len())
        } else {
            let part = vstd::slice::slice_subrange(buf, 0, left);
            self.taken.extend_from_slice(part);
            Ok(left)
        }
    }

    fn write_all(&mut self, buf: &[u8]) -> (r: Result<(), std::io::Error>)
        ensures
            r is Ok <==> buf@.len() <= old(self).room_left(),
            r is Err ==> final(self).written() == old(self).written() + buf@.take(
                old(self).room_left() as int,
            ),
            final(self).room() == old(self).room(),
            r is Ok ==> final(self).room_left() == old(self).room_left() - buf@.len(),
            r is Err ==> final(self).room_left() == 0,
    {
        let left = self.left();
        if buf.len() <= left {
            self.taken.extend_from_slice(buf);
            Ok(())
        } else {
            let part = vstd::slice::slice_subrange(buf, 0, left);
            self.taken.extend_from_slice(part);
            let error = no_room_left();
            proof {
                self.failed@ = self.failed@.push(error);
            }
            Err(error)
        }
    }

    fn flush(&mut self) -> (r: Result<(), std::io::Error>)
        ensures
            r is Ok,
            final(self).room() == old(self).room(),
            final(self).room_left() == old(self).room_left(),
    {
        Ok(())
    }
}

} // verus!
