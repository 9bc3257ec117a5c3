//! The steps of the byte relays between the QUIC stream and the local side
//! (standard input and output on the client, the SSH server's TCP stream on
//! the server).

use vstd::prelude::*;

verus! {

/// How many bytes each relay reads at a time.
pub const RELAY_BUFFER_LEN: usize = 2048;

/// The error code with which the client closes the connection on a hangup signal.
pub const HANGUP_CLOSE_CODE: u32 = 0;

/// The four relays.
#[derive(Clone, Copy, Debug, PartialEq, Eq, Structural)]
pub enum Direction {
    /// Client: from the QUIC stream to standard output.
    QuicToStdout,
    /// Client: from standard input to the QUIC stream.
    StdinToQuic,
    /// Server: from the SSH server to the QUIC stream.
    SshToQuic,
    /// Server: from the QUIC stream to the SSH server.
    QuicToSsh,
}

/// What one read gave.
#[derive(Clone, Copy, Debug, PartialEq, Eq, Structural)]
pub enum ReadResult {
    /// This many bytes were read into the buffer.
    Data(usize),
    /// The QUIC stream has finished.
    Finished,
    /// The read failed.
    Failed,
}

/// What the relay does next.
#[derive(Clone, Copy, Debug, PartialEq, Eq, Structural)]
pub enum Step {
    /// Write the first this many bytes of the buffer to the other side.
    Forward(usize),
    /// Read again.
    ReadAgain,
    /// Stop relaying.
    Stop,
}

/// The step after a read: a failed read stops the relay, a finished stream
/// or (except on the client's way to standard output) an empty read is read
/// again, and data is forwarded.
pub open spec fn spec_after_read(dir: Direction, r: ReadResult) -> Step {
    match r {
        ReadResult::Failed => Step::Stop,
        ReadResult::Finished => Step::ReadAgain,
        ReadResult::Data(n) => if n == 0 && dir != Direction::QuicToStdout {
            Step::ReadAgain
        } else {
            Step::Forward(n)
        },
    }
}

/// Decides the step after a read.
pub fn after_read(dir: Direction, r: ReadResult) -> (s: Step)
    requires
        r matches ReadResult::Data(n) ==> n <= RELAY_BUFFER_LEN,
    ensures
        s == spec_after_read(dir, r),
        s matches Step::Forward(n) ==> n <= RELAY_BUFFER_LEN,
{
    match r {
        ReadResult::Failed => Step::Stop,
        ReadResult::Finished => Step::ReadAgain,
        ReadResult::Data(n) => {
            let skip_empty = match dir {
                Direction::QuicToStdout => false,
                _ => true,
            };
            if n == 0 && skip_empty {
                Step::ReadAgain
            } else {
                Step::Forward(n)
            }
        },
    }
}

/// Decides the step after a write: a failed write stops the relay, else it
/// reads again (a failed flush of standard output is only reported).
pub fn after_write(written: bool) -> (s: Step)
    ensures
        s == (if written { Step::ReadAgain } else { Step::Stop }),
{
    if written {
        Step::ReadAgain
    } else {
        Step::Stop
    }
}

/// The bytes a read delivered: the first `n` of the buffer for `Data(n)`,
/// none otherwise.
pub open spec fn delivered(buf: Seq<u8>, r: ReadResult) -> Seq<u8> {
    match r {
        ReadResult::Data(n) => buf.take(n as int),
        _ => Seq::empty(),
    }
}

/// One relay in progress: the bytes its reads delivered, the bytes its
/// completed writes forwarded, and the chunk that waits to be written.
pub struct Relay {
    dir: Direction,
    waiting: bool,
    received: Ghost<Seq<u8>>,
    forwarded: Ghost<Seq<u8>>,
    pending: Ghost<Seq<u8>>,
}

impl Relay {
    /// Every byte received is forwarded or waits, in the order received;
    /// nothing waits while no write is due.
    #[verifier::type_invariant]
    closed spec fn inv(&self) -> bool {
        &&& self.forwarded@ + self.pending@ == self.received@
        &&& !self.waiting ==> self.pending@.len() == 0
    }

    /// The relay's direction.
    pub closed spec fn direction(&self) -> Direction {
        self.dir
    }

    /// All bytes the reads delivered so far, in order.
    pub closed spec fn received(&self) -> Seq<u8> {
        self.received@
    }

    /// All bytes the completed writes forwarded so far, in order.
    pub closed spec fn forwarded(&self) -> Seq<u8> {
        self.forwarded@
    }

    /// Whether a chunk waits to be written.
    pub closed spec fn is_waiting(&self) -> bool {
        self.waiting
    }

    /// A relay in the given direction that has neither read nor written.
    pub fn new(dir: Direction) -> (r: Relay)
        ensures
            r.direction() == dir,
            r.received() == Seq::<u8>::empty(),
            r.forwarded() == Seq::<u8>::empty(),
            !r.is_waiting(),
    {
        Relay {
            dir,
            waiting: false,
            received: Ghost(Seq::empty()),
            forwarded: Ghost(Seq::empty()),
            pending: Ghost(Seq::empty()),
        }
    }

    /// Whether a chunk waits to be written.
    pub fn awaiting_write(&self) -> (b: bool)
        ensures
            b == self.is_waiting(),
    {
        self.waiting
    }

    /// Records a read into `buf` and decides the next step (as `after_read`
    /// does); a `Forward(n)` asks for the first `n` bytes of `buf` to be
    /// written next.
    pub fn read(&mut self, buf: &[u8], r: ReadResult) -> (s: Step)
        requires
            !old(self).is_waiting(),
            r matches ReadResult::Data(n) ==> n <= buf@.len() && n <= RELAY_BUFFER_LEN,
        ensures
            s == spec_after_read(old(self).direction(), r),
            final(self).direction() == old(self).direction(),
            final(self).received() == old(self).received() + delivered(buf@, r),
            final(self).forwarded() == old(self).forwarded(),
            final(self).is_waiting() == (s is Forward),
            final(self).forwarded().is_prefix_of(final(self).received()),
            !final(self).is_waiting() ==> final(self).forwarded() == final(self).received(),
    {
        proof {
            use_type_invariant(&*self);
        }
        let s = after_read(self.dir, r);
        let ghost chunk = delivered(buf@, r);
        let waiting = match s {
            Step::Forward(_) => true,
            _ => false,
        };
        let ghost received = self.received@ + chunk;
        let ghost pending = if waiting { chunk } else { Seq::<u8>::empty() };
        assert(!waiting ==> chunk =~= Seq::<u8>::empty());
        assert(self.forwarded@ + pending =~= received);
        *self = Relay {
            dir: self.dir,
            waiting,
            received: Ghost(received),
            forwarded: Ghost(self.forwarded@),
            pending: Ghost(pending),
        };
        assert(self.forwarded@.is_prefix_of(self.received@)) by {
            assert(self.received@.subrange(0, self.forwarded@.len() as int) =~= self.forwarded@);
        }
        s
    }

    /// Records the outcome of writing the waiting chunk and decides the next
    /// step (as `after_write` does): a completed write forwards the chunk.
    pub fn wrote(&mut self, written: bool) -> (s: Step)
        requires
            old(self).is_waiting(),
        ensures
            s == (if written { Step::ReadAgain } else { Step::Stop }),
            final(self).direction() == old(self).direction(),
            final(self).received() == old(self).received(),
            written ==> final(self).forwarded() == final(self).received() && !final(self).is_waiting(),
            !written ==> final(self).forwarded() == old(self).forwarded() && final(self).is_waiting(),
            final(self).forwarded().is_prefix_of(final(self).received()),
    {
        proof {
            use_type_invariant(&*self);
        }
        let s = after_write(written);
        if written {
            let ghost all = self.received@;
            *self = Relay {
                dir: self.dir,
                waiting: false,
                received: Ghost(all),
                forwarded: Ghost(all),
                pending: Ghost(Seq::empty()),
            };
            assert(self.forwarded@ + self.pending@ =~= self.received@);
            assert(self.forwarded@.is_prefix_of(self.received@)) by {
                assert(self.received@.subrange(0, self.forwarded@.len() as int) =~= self.forwarded@);
            }
        } else {
            assert(self.forwarded@.is_prefix_of(self.received@)) by {
                assert(self.received@.subrange(0, self.forwarded@.len() as int) =~= self.forwarded@);
            }
        }
        s
    }
}

/// What ended the client's session.
#[derive(Clone, Copy, Debug, PartialEq, Eq, Structural)]
pub enum ClientEnd {
    /// The relay to standard output stopped.
    Downstream,
    /// The relay from standard input stopped.
    Upstream,
    /// A hangup signal arrived (Ctrl-C on Windows).
    Signal,
}

/// Whether the client closes the connection itself when the session ends
/// this way (with code 0 and the reason "signal HUP"); otherwise the
/// connection is dropped.
pub fn closes_connection(end: ClientEnd) -> (b: bool)
    ensures
        b == (end == ClientEnd::Signal),
{
    match end {
        ClientEnd::Signal => true,
        _ => false,
    }
}

/// The reason the client gives when it closes the connection on a signal.
pub fn hangup_close_reason() -> (r: &'static str)
    ensures
        r@ == "signal HUP"@,
{
    "signal HUP"
}

/// A relay never forwards more than one buffer, forwards everything a read
/// gave, and stops after every failure.
pub proof fn lemma_relay_steps(dir: Direction, r: ReadResult)
    requires
        r matches ReadResult::Data(n) ==> n <= RELAY_BUFFER_LEN,
    ensures
        spec_after_read(dir, r) matches Step::Forward(n) ==> n <= RELAY_BUFFER_LEN && r == ReadResult::Data(n),
        r == ReadResult::Failed <==> spec_after_read(dir, r) == Step::Stop,
        r matches ReadResult::Data(n) ==> (n > 0 ==> spec_after_read(dir, r) == Step::Forward(n)),
{
}

} // verus!
