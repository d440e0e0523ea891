use crate::error::TunnelError;
use vstd::prelude::*;

verus! {

/// The backend dial target of one forwarded connection.
#[derive(Debug, Clone, PartialEq, Eq)]
pub struct TunnelRunner {
    to_addr: String,
    to_port: u16,
}

impl TunnelRunner {
    pub closed spec fn spec_addr(&self) -> Seq<char> {
        self.to_addr@
    }

    pub closed spec fn spec_port(&self) -> u16 {
        self.to_port
    }

    /// The job for one forwarded connection; building it never fails.
    pub fn new(to_addr: &str, to_port: u16) -> (r: Result<TunnelRunner, TunnelError>)
        ensures
            r matches Ok(t) && t.spec_addr() == to_addr@ && t.spec_port() == to_port,
    {
        Ok(TunnelRunner::job(to_addr, to_port))
    }

    pub(crate) fn job(to_addr: &str, to_port: u16) -> (t: TunnelRunner)
        ensures
            t.spec_addr() == to_addr@,
            t.spec_port() == to_port,
    {
        TunnelRunner { to_addr: to_addr.to_owned(), to_port }
    }

    pub fn addr(&self) -> (r: &str)
        ensures
            r@ == self.spec_addr(),
    {
        self.to_addr.as_str()
    }

    pub fn port(&self) -> (r: u16)
        ensures
            r == self.spec_port(),
    {
        self.to_port
    }
}

/// Size of the buffer each copy direction reads into.
pub const COPY_BUFFER_SIZE: usize = 4096;

/// One of the two copy directions of a relay.
#[derive(Debug, Clone, Copy, PartialEq, Eq, Structural)]
pub enum Direction {
    /// From the SSH channel (remote peer) to the backend connection.
    Inbound,
    /// From the backend connection to the SSH channel.
    Outbound,
}

pub open spec fn other_direction(d: Direction) -> Direction {
    match d {
        Direction::Inbound => Direction::Outbound,
        Direction::Outbound => Direction::Inbound,
    }
}

/// The tag of a copy's I/O errors: `bad_read` for the inbound copy (channel
/// to backend), `bad_write` for the outbound copy (backend to channel).
pub open spec fn direction_tag(d: Direction) -> Seq<char> {
    match d {
        Direction::Inbound => "bad_read"@,
        Direction::Outbound => "bad_write"@,
    }
}

impl Direction {
    /// The tag of this direction's I/O errors.
    pub fn tag(self) -> (r: String)
        ensures
            r@ == direction_tag(self),
    {
        match self {
            Direction::Inbound => "bad_read".to_owned(),
            Direction::Outbound => "bad_write".to_owned(),
        }
    }

    /// The direction that runs beside this one.
    pub fn other(self) -> (r: Direction)
        ensures
            r == other_direction(self),
    {
        match self {
            Direction::Inbound => Direction::Outbound,
            Direction::Outbound => Direction::Inbound,
        }
    }
}

/// What a read on the source side of a copy produced. An empty chunk is the
/// clean end of the stream.
#[derive(Debug)]
pub enum ReadResult {
    Data(Vec<u8>),
    Failed(String),
}

/// What writing a whole chunk to the sink side produced.
#[derive(Debug)]
pub enum WriteResult {
    Written,
    Failed(String),
}

/// What the copy loop asks its driver to do next.
#[derive(Debug)]
pub enum CopyStep {
    /// Read the next chunk from the source.
    Read,
    /// Write exactly these bytes to the sink, then report with `on_write`.
    Write(Vec<u8>),
    /// The copy is over, cleanly or with an error.
    Finished(Result<(), TunnelError>),
}

#[derive(Debug, Clone, Copy, PartialEq, Eq, Structural)]
pub enum CopyPhase {
    Reading,
    Writing,
    Done,
}

pub open spec fn is_io_error(r: Result<(), TunnelError>, tag: Seq<char>, msg: Seq<char>) -> bool {
    r matches Err(TunnelError::Io(t, m)) && t@ == tag && m@ == msg
}

/// One direction of a relay: reads chunks from its source and writes each
/// one whole to its sink, until the source ends or an I/O error occurs.
pub struct CopyLoop {
    direction: Direction,
    phase: CopyPhase,
    /// Every byte read from the source so far, in order.
    received: Ghost<Seq<u8>>,
    /// Every byte whose write to the sink completed, in order.
    delivered: Ghost<Seq<u8>>,
    /// How the copy ended, once it has.
    outcome: Ghost<Option<Result<(), TunnelError>>>,
}

impl CopyLoop {
    pub closed spec fn phase(&self) -> CopyPhase {
        self.phase
    }

    pub closed spec fn direction(&self) -> Direction {
        self.direction
    }

    pub closed spec fn received(&self) -> Seq<u8> {
        self.received@
    }

    pub closed spec fn delivered(&self) -> Seq<u8> {
        self.delivered@
    }

    pub closed spec fn outcome(&self) -> Option<Result<(), TunnelError>> {
        self.outcome@
    }

    /// The bytes delivered are always a prefix of those received; they are
    /// all of them while reading and when the copy ended cleanly.
    pub closed spec fn wf(&self) -> bool {
        &&& self.delivered@.len() <= self.received@.len()
        &&& self.received@.subrange(0, self.delivered@.len() as int) == self.delivered@
        &&& (self.phase == CopyPhase::Reading ==> self.delivered@ == self.received@)
        &&& (self.outcome@ == Some(Ok::<(), TunnelError>(())) ==> self.delivered@ == self.received@)
        &&& (self.phase == CopyPhase::Done <==> self.outcome@ is Some)
    }

    pub closed spec fn in_flight(&self) -> Seq<u8> {
        self.received@.subrange(self.delivered@.len() as int, self.received@.len() as int)
    }

    /// A copy for direction `d`: every failure of an inbound copy is tagged
    /// `bad_read`, every failure of an outbound copy `bad_write`.
    pub fn new(d: Direction) -> (r: CopyLoop)
        ensures
            r.wf(),
            r.direction() == d,
            r.phase() == CopyPhase::Reading,
            r.received() == Seq::<u8>::empty(),
            r.delivered() == Seq::<u8>::empty(),
    {
        proof {
            assert(Seq::<u8>::empty().subrange(0, 0) =~= Seq::<u8>::empty());
        }
        CopyLoop {
            direction: d,
            phase: CopyPhase::Reading,
            received: Ghost(Seq::empty()),
            delivered: Ghost(Seq::empty()),
            outcome: Ghost(None),
        }
    }

    pub fn is_done(&self) -> (r: bool)
        ensures
            r == (self.phase() == CopyPhase::Done),
    {
        self.phase == CopyPhase::Done
    }

    /// Takes the result of a read. A chunk with bytes is handed back whole to
    /// be written; an empty chunk ends the copy cleanly; a failed read ends it
    /// with an `Io` error tagged by the copy's direction.
    pub fn on_read(&mut self, r: ReadResult) -> (step: CopyStep)
        requires
            old(self).wf(),
            old(self).phase() == CopyPhase::Reading,
        ensures
            final(self).wf(),
            final(self).direction() == old(self).direction(),
            final(self).delivered() == old(self).delivered(),
            match r {
                ReadResult::Data(bytes) => if bytes@.len() == 0 {
                    &&& step matches CopyStep::Finished(Ok(()))
                    &&& final(self).phase() == CopyPhase::Done
                    &&& final(self).outcome() == Some(Ok::<(), TunnelError>(()))
                    &&& final(self).received() == old(self).received()
                } else {
                    &&& step matches CopyStep::Write(w) && w@ == bytes@
                    &&& final(self).phase() == CopyPhase::Writing
                    &&& final(self).received() == old(self).received() + bytes@
                    &&& final(self).outcome() is None
                },
                ReadResult::Failed(msg) => {
                    &&& step matches CopyStep::Finished(res) && is_io_error(res, direction_tag(old(self).direction()), msg@)
                    &&& final(self).phase() == CopyPhase::Done
                    &&& final(self).outcome() == Some(step->Finished_0)
                    &&& final(self).received() == old(self).received()
                },
            },
    {
        match r {
            ReadResult::Data(bytes) => {
                if bytes.len() == 0 {
                    self.phase = CopyPhase::Done;
                    self.outcome = Ghost(Some(Ok(())));
                    CopyStep::Finished(Ok(()))
                } else {
                    self.phase = CopyPhase::Writing;
                    self.received = Ghost(self.received@ + bytes@);
                    proof {
                        assert(self.received@.subrange(0, self.delivered@.len() as int)
                            =~= self.delivered@);
                    }
                    CopyStep::Write(bytes)
                }
            },
            ReadResult::Failed(msg) => {
                let res: Result<(), TunnelError> = Err(TunnelError::Io(self.direction.tag(), msg));
                self.phase = CopyPhase::Done;
                self.outcome = Ghost(Some(res));
                CopyStep::Finished(res)
            },
        }
    }

    /// Takes the result of writing the chunk in flight. On success those bytes
    /// count as delivered and the next read is asked for; a failed write ends
    /// the copy with an `Io` error tagged by the copy's direction.
    pub fn on_write(&mut self, w: WriteResult) -> (step: CopyStep)
        requires
            old(self).wf(),
            old(self).phase() == CopyPhase::Writing,
        ensures
            final(self).wf(),
            final(self).direction() == old(self).direction(),
            final(self).received() == old(self).received(),
            match w {
                WriteResult::Written => {
                    &&& step matches CopyStep::Read
                    &&& final(self).phase() == CopyPhase::Reading
                    &&& final(self).delivered() == old(self).delivered() + old(self).in_flight()
                    &&& final(self).delivered() == old(self).received()
                },
                WriteResult::Failed(msg) => {
                    &&& step matches CopyStep::Finished(res) && is_io_error(res, direction_tag(old(self).direction()), msg@)
                    &&& final(self).phase() == CopyPhase::Done
                    &&& final(self).outcome() == Some(step->Finished_0)
                    &&& final(self).delivered() == old(self).delivered()
                },
            },
    {
        match w {
            WriteResult::Written => {
                proof {
                    assert(self.delivered@ + self.in_flight() =~= self.received@);
                }
                self.delivered = Ghost(self.received@);
                self.phase = CopyPhase::Reading;
                proof {
                    assert(self.received@.subrange(0, self.received@.len() as int)
                        =~= self.received@);
                }
                CopyStep::Read
            },
            WriteResult::Failed(msg) => {
                let res: Result<(), TunnelError> = Err(TunnelError::Io(self.direction.tag(), msg));
                self.phase = CopyPhase::Done;
                self.outcome = Ghost(Some(res));
                CopyStep::Finished(res)
            },
        }
    }
}

/// A copy that ended cleanly has written every byte it read, in the order it
/// read them, whatever the sizes of the chunks the reads returned.
pub proof fn lemma_clean_copy_is_faithful(c: &CopyLoop)
    requires
        c.wf(),
        c.outcome() == Some(Ok::<(), TunnelError>(())),
    ensures
        c.delivered() == c.received(),
{
}

#[derive(Debug, Clone, Copy, PartialEq, Eq, Structural)]
pub enum RelayPhase {
    /// The backend connection is being dialed.
    Dialing,
    /// Both copy directions run.
    Copying,
    /// The relay is over; its resources are to be released.
    Finished,
}

/// What the relay asks its driver to do next.
#[derive(Debug, Clone, Copy, PartialEq, Eq, Structural)]
pub enum RelayAction {
    /// Start both copy directions over the dialed connection and the channel.
    StartCopies,
    /// Cancel the copy of this direction and release both endpoints.
    Cancel(Direction),
    /// Release the channel; nothing else was opened.
    Close,
    /// Nothing to do: the relay already ended.
    Ignore,
}

/// The coordination of one relay: dial the backend, run both directions, and
/// end the whole relay as soon as either direction ends.
pub struct Relay {
    phase: RelayPhase,
    finished_first: Option<Direction>,
    result: Option<Result<(), TunnelError>>,
}

impl Relay {
    pub closed spec fn phase(&self) -> RelayPhase {
        self.phase
    }

    /// The direction whose end ended the relay, if a copy ended it.
    pub closed spec fn finished_first(&self) -> Option<Direction> {
        self.finished_first
    }

    pub closed spec fn result(&self) -> Option<Result<(), TunnelError>> {
        self.result
    }

    pub closed spec fn wf(&self) -> bool {
        &&& (self.phase == RelayPhase::Finished <==> self.result is Some)
        &&& (self.phase != RelayPhase::Finished ==> self.finished_first is None)
    }

    pub fn new() -> (r: Relay)
        ensures
            r.wf(),
            r.phase() == RelayPhase::Dialing,
            r.finished_first() is None,
    {
        Relay { phase: RelayPhase::Dialing, finished_first: None, result: None }
    }

    /// Takes the result of dialing the backend. A failed dial ends the relay
    /// with an `Io` error tagged `connect`, and the channel is closed.
    pub fn on_dial(&mut self, dialed: Result<(), String>) -> (action: RelayAction)
        requires
            old(self).wf(),
            old(self).phase() == RelayPhase::Dialing,
        ensures
            final(self).wf(),
            final(self).finished_first() is None,
            match dialed {
                Ok(()) => action == RelayAction::StartCopies && final(self).phase()
                    == RelayPhase::Copying,
                Err(msg) => {
                    &&& action == RelayAction::Close
                    &&& final(self).phase() == RelayPhase::Finished
                    &&& final(self).result() matches Some(res) && is_io_error(res, "connect"@, msg@)
                },
            },
    {
        match dialed {
            Ok(()) => {
                self.phase = RelayPhase::Copying;
                RelayAction::StartCopies
            },
            Err(msg) => {
                self.phase = RelayPhase::Finished;
                self.result = Some(Err(TunnelError::Io("connect".to_owned(), msg)));
                RelayAction::Close
            },
        }
    }

    /// Takes the end of one copy direction. The first end finishes the relay
    /// with that direction's result and cancels the other direction; an end
    /// reported after that changes nothing.
    pub fn on_copy_finished(&mut self, d: Direction, r: Result<(), TunnelError>) -> (action:
        RelayAction)
        requires
            old(self).wf(),
            old(self).phase() != RelayPhase::Dialing,
        ensures
            final(self).wf(),
            final(self).phase() == RelayPhase::Finished,
            old(self).phase() == RelayPhase::Copying ==> {
                &&& action == RelayAction::Cancel(other_direction(d))
                &&& final(self).finished_first() == Some(d)
                &&& final(self).result() == Some(r)
            },
            old(self).phase() == RelayPhase::Finished ==> action == RelayAction::Ignore
                && *final(self) == *old(self),
    {
        if self.phase == RelayPhase::Copying {
            self.phase = RelayPhase::Finished;
            self.finished_first = Some(d);
            self.result = Some(r);
            RelayAction::Cancel(d.other())
        } else {
            RelayAction::Ignore
        }
    }

    pub fn is_finished(&self) -> (b: bool)
        ensures
            b == (self.phase() == RelayPhase::Finished),
    {
        self.phase == RelayPhase::Finished
    }

    /// The relay's outcome: `None` while it still runs.
    pub fn into_result(self) -> (r: Option<Result<(), TunnelError>>)
        ensures
            r == self.result(),
    {
        self.result
    }
}

} // verus!
