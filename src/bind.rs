//! The connection handle of a BIND command, tagged with the phase it is in.
//!
//! A handle starts in [`NeedFirstReply`]. Each `reply` consumes the handle and
//! stages the reply message in a [`PendingReply`]; once the message has been
//! written to the transport, [`PendingReply::finish`] hands out the handle of
//! the next phase, and only on a successful write. A [`Ready`] handle gives
//! access to the transport for relaying.
//!
//! The handle is generic over its transport; the asynchronous write of each
//! staged message is left to the caller, who reports its outcome.

use crate::wire::{reply_message, reply_wire, Address, Reply};
use tokio::net::tcp::{ReadHalf, WriteHalf};
use tokio::net::TcpStream;
use vstd::prelude::*;

verus! {

/// tokio's TCP stream, carried through as an opaque value.
#[verifier::external_type_specification]
#[verifier::external_body]
pub struct ExTcpStream(TcpStream);

/// The error of a failed write, carried through as an opaque value.
#[verifier::external_type_specification]
#[verifier::external_body]
pub struct ExIoError(std::io::Error);

/// The two borrowed halves of a tokio TCP stream, carried through as opaque
/// values.
#[verifier::external_type_specification]
#[verifier::external_body]
pub struct ExReadHalf<'a>(ReadHalf<'a>);

#[verifier::external_type_specification]
#[verifier::external_body]
pub struct ExWriteHalf<'a>(WriteHalf<'a>);

/// Relies on tokio's `TcpStream::split`, which only borrows the stream for
/// its two halves and leaves it as it was.
pub assume_specification<'a>[ TcpStream::split ](stream: &'a mut TcpStream) -> (r: (
    ReadHalf<'a>,
    WriteHalf<'a>,
))
    ensures
        *final(stream) == *old(stream),
;

/// Phase before the reply that carries the bound listening address.
pub struct NeedFirstReply;

/// Phase before the reply that carries the address of the inbound peer.
pub struct NeedSecondReply;

/// Both replies are written: the transport is ready for relaying.
pub struct Ready;

/// A phase of the handle, and the number of replies written before it.
pub trait Phase: Sized {
    spec fn replies_written() -> nat;
}

impl Phase for NeedFirstReply {
    open spec fn replies_written() -> nat {
        0
    }
}

impl Phase for NeedSecondReply {
    open spec fn replies_written() -> nat {
        1
    }
}

impl Phase for Ready {
    open spec fn replies_written() -> nat {
        2
    }
}

/// The phase tag together with the messages written so far.
struct ReplyLog<S: Phase> {
    phase: S,
    written: Ghost<Seq<Seq<u8>>>,
}

impl<S: Phase> ReplyLog<S> {
    #[verifier::type_invariant]
    spec fn inv(self) -> bool {
        self.written@.len() == S::replies_written()
    }
}

/// A reply message staged for the transport, with the tag of the phase that
/// a successful write leads to.
struct StagedReply<N: Phase> {
    message: Vec<u8>,
    next: N,
    written: Ghost<Seq<Seq<u8>>>,
}

impl<N: Phase> StagedReply<N> {
    #[verifier::type_invariant]
    spec fn inv(self) -> bool {
        self.written@.len() + 1 == N::replies_written()
    }
}

/// The handle: one transport of type `T`, owned, in phase `S`.
pub struct Bind<S: Phase, T> {
    stream: T,
    log: ReplyLog<S>,
}

/// A handle between two phases: the reply message is staged and has still to
/// be written to the transport.
pub struct PendingReply<N: Phase, T> {
    stream: T,
    staged: StagedReply<N>,
}

/// Why a reply was not written.
pub enum ReplyError {
    /// The address does not fit the reply message: a domain name over 255
    /// bytes.
    AddressTooLong,
    /// Writing the message to the transport failed.
    Io(std::io::Error),
}

impl<S: Phase, T> Bind<S, T> {
    /// The reply messages written to the transport, in order.
    pub closed spec fn written(&self) -> Seq<Seq<u8>> {
        self.log.written@
    }

    /// The transport this handle owns.
    pub closed spec fn transport(&self) -> T {
        self.stream
    }

    /// As many replies were written as the phase says.
    pub open spec fn wf(&self) -> bool {
        self.written().len() == S::replies_written()
    }

    fn stage<N: Phase>(self, next: N, reply: Reply, addr: Address) -> (r: Result<
        PendingReply<N, T>,
        ReplyError,
    >)
        requires
            N::replies_written() == S::replies_written() + 1,
        ensures
            r is Ok <==> addr@.encodable(),
            r matches Ok(p) ==> {
                &&& p.message() == reply_wire(reply.spec_code(), addr@)
                &&& p.written() == self.written()
                &&& p.transport() == self.transport()
            },
            r matches Err(e) ==> e is AddressTooLong,
    {
        proof {
            use_type_invariant(&self.log);
        }
        match reply_message(reply, &addr) {
            Some(message) => {
                let staged = StagedReply { message, next, written: Ghost(self.log.written@) };
                Ok(PendingReply { stream: self.stream, staged })
            },
            None => Err(ReplyError::AddressTooLong),
        }
    }
}

impl<T> Bind<NeedFirstReply, T> {
    /// Takes over a transport on which nothing has been replied yet.
    pub fn new(stream: T) -> (r: Self)
        ensures
            r.written() == Seq::<Seq<u8>>::empty(),
            r.transport() == stream,
            r.wf(),
    {
        Bind { stream, log: ReplyLog { phase: NeedFirstReply, written: Ghost(Seq::empty()) } }
    }

    /// Stages the first reply, which carries the bound listening address.
    pub fn reply(self, reply: Reply, addr: Address) -> (r: Result<
        PendingReply<NeedSecondReply, T>,
        ReplyError,
    >)
        ensures
            r is Ok <==> addr@.encodable(),
            r matches Ok(p) ==> {
                &&& p.message() == reply_wire(reply.spec_code(), addr@)
                &&& p.written() == self.written()
                &&& p.transport() == self.transport()
            },
            r matches Err(e) ==> e is AddressTooLong,
    {
        self.stage(NeedSecondReply, reply, addr)
    }
}

impl<T> Bind<NeedSecondReply, T> {
    /// Stages the second reply, which carries the address of the peer.
    pub fn reply(self, reply: Reply, addr: Address) -> (r: Result<PendingReply<Ready, T>, ReplyError>)
        ensures
            r is Ok <==> addr@.encodable(),
            r matches Ok(p) ==> {
                &&& p.message() == reply_wire(reply.spec_code(), addr@)
                &&& p.written() == self.written()
                &&& p.transport() == self.transport()
            },
            r matches Err(e) ==> e is AddressTooLong,
    {
        self.stage(Ready, reply, addr)
    }
}

impl<N: Phase, T> PendingReply<N, T> {
    /// The staged message.
    pub closed spec fn message(&self) -> Seq<u8> {
        self.staged.message@
    }

    /// The messages written before the staged one.
    pub closed spec fn written(&self) -> Seq<Seq<u8>> {
        self.staged.written@
    }

    pub closed spec fn transport(&self) -> T {
        self.stream
    }

    /// The transport and the staged message, to write the one to the other.
    pub fn parts_mut(&mut self) -> (r: (&mut T, &[u8]))
        ensures
            r.1@ == old(self).message(),
            *r.0 == old(self).transport(),
            final(self).transport() == *final(r.0),
            final(self).message() == old(self).message(),
            final(self).written() == old(self).written(),
    {
        (&mut self.stream, self.staged.message.as_slice())
    }

    /// Ends the phase change with the outcome of writing the staged message:
    /// the next phase's handle after a successful write, the write's error
    /// otherwise.
    pub fn finish(self, outcome: Result<(), std::io::Error>) -> (r: Result<Bind<N, T>, ReplyError>)
        ensures
            r is Ok <==> outcome is Ok,
            r matches Ok(b) ==> {
                &&& b.written() == self.written().push(self.message())
                &&& b.wf()
                &&& b.transport() == self.transport()
            },
            r matches Err(e) ==> outcome == Err::<(), std::io::Error>(e->Io_0),
    {
        proof {
            use_type_invariant(&self.staged);
        }
        match outcome {
            Ok(()) => {
                let StagedReply { message, next, written } = self.staged;
                let log = ReplyLog { phase: next, written: Ghost(written@.push(message@)) };
                Ok(Bind { stream: self.stream, log })
            },
            Err(e) => Err(ReplyError::Io(e)),
        }
    }
}

impl<T> Bind<Ready, T> {
    /// The transport, to query its endpoints.
    pub fn stream(&self) -> (r: &T)
        ensures
            *r == self.transport(),
    {
        &self.stream
    }

    /// The transport, to relay bytes over it.
    pub fn stream_mut(&mut self) -> (r: &mut T)
        ensures
            *r == old(self).transport(),
            final(self).transport() == *final(r),
            final(self).written() == old(self).written(),
            final(self).wf() == old(self).wf(),
    {
        &mut self.stream
    }
}

/// A handle reaches the relay phase only after two reply messages were
/// written to its transport: [`PendingReply::finish`] is the one way to a
/// [`Ready`] handle, it comes from a second-phase handle, and it records the
/// staged message only after the write succeeded.
pub proof fn lemma_ready_after_two_replies<T>(b: &Bind<Ready, T>)
    requires
        b.wf(),
    ensures
        b.written().len() == 2,
{
}

impl Bind<Ready, TcpStream> {
    /// A read half and a write half of the transport, to drive each direction
    /// on its own.
    pub fn split(&mut self) -> (r: (ReadHalf<'_>, WriteHalf<'_>))
        ensures
            final(self).transport() == old(self).transport(),
            final(self).written() == old(self).written(),
            final(self).wf() == old(self).wf(),
    {
        self.stream.split()
    }
}

} // verus!
