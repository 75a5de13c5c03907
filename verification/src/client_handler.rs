//! The per-connection unit: the messages its control channel carries, the
//! handle that enqueues them, the errors that end it, and the verified
//! decision logic of its two loops.
//!
//! A connection task races a read loop against a write loop; whichever
//! finishes first ends the task.  The waits themselves (socket reads and
//! writes, channel receives) happen in the unverified shell; every decision
//! in between is taken here, and the events successfully emitted for one
//! connection are tracked by [`TcpClientProtocol`], whose invariant pins the
//! event order a bus consumer can observe.
use vstd::prelude::*;
use tokio::sync::mpsc::Sender;
use tokio::sync::mpsc::error::TrySendError;

verus! {

/// Size of one socket read chunk, in bytes.
pub const CLIENT_BUFFER_SIZE: usize = 1024;

/// What a connection task's private control channel carries.
#[derive(Debug)]
pub enum TcpClientTaskMessage {
    Stop,
    Send { data: String },
}

/// The capability addressing one connection: a cloneable send endpoint of
/// that task's control channel.  Holding it is the identity; once the task
/// has terminated, both operations silently fail forever.
#[derive(Debug, Clone)]
pub struct TcpClientTaskHandle {
    sender: Sender<TcpClientTaskMessage>,
}

impl TcpClientTaskHandle {
    pub fn new(sender: Sender<TcpClientTaskMessage>) -> Self {
        TcpClientTaskHandle { sender }
    }

    /// Best-effort, non-blocking enqueue of `data` for the task's write
    /// loop.  Fails exactly when the control channel is full or closed;
    /// the unsent data comes back inside the error.  Never panics, never
    /// blocks, gives no delivery guarantee.
    pub fn send_data(&self, data: String) -> Result<(), TrySendError<TcpClientTaskMessage>> {
        self.sender.try_send(TcpClientTaskMessage::Send { data })
    }

    /// Best-effort, non-blocking stop request; same failure modes as
    /// [`Self::send_data`].
    pub fn stop(&self) -> Result<(), TrySendError<TcpClientTaskMessage>> {
        self.sender.try_send(TcpClientTaskMessage::Stop)
    }
}

/// What ends one connection task.  Each value is fatal to that task alone;
/// neither the acceptor nor any sibling connection is touched by it.
#[derive(Debug)]
pub enum TcpClientTaskError {
    ClientWriteError(String, std::io::Error),
    ClientParseError,
    ClientReadError,
    ClientConnectError,
    ClientDisconnectError,
    ClientDataError,
}

/// What decoding a byte chunk as UTF-8 yields: the text, or nothing when
/// the bytes are not valid UTF-8.  Named only; the decoding itself is done
/// by the standard library.
pub uninterp spec fn utf8_decoded(bytes: Seq<u8>) -> Option<Seq<char>>;

/// Relies on String::from_utf8: it succeeds exactly on valid UTF-8 input,
/// and the text depends on the bytes alone.
#[verifier::external_body]
fn decode_utf8(bytes: Vec<u8>) -> (r: Option<String>)
    ensures
        r is Some <==> utf8_decoded(bytes@) is Some,
        r matches Some(s) ==> utf8_decoded(bytes@) == Some(s@),
{
    String::from_utf8(bytes).ok()
}

/// What one turn of the read loop saw: the peer closed the socket, a chunk
/// of bytes arrived, or the read itself failed.
pub enum ClientReadEvent {
    Closed,
    Data { bytes: Vec<u8> },
    Failed,
}

/// What the read loop does next.
pub enum ClientReadStep {
    /// Emit `Disconnect` for this connection, then end the task.
    EmitDisconnect,
    /// Emit `SendData` carrying `text`, then keep reading.
    EmitData { text: String },
    /// End the task with `error`; nothing is emitted.
    Fail { error: TcpClientTaskError },
}

/// One decision of the read loop: zero bytes mean the peer closed; bytes
/// that decode as UTF-8 become one data event; bytes that do not are fatal
/// to the owning connection, with no partial or lossy decoding; a failed
/// read is fatal too.
pub fn client_read_step(event: ClientReadEvent) -> (r: ClientReadStep)
    ensures
        match event {
            ClientReadEvent::Closed => r is EmitDisconnect,
            ClientReadEvent::Data { bytes } => match utf8_decoded(bytes@) {
                Some(text) => r matches ClientReadStep::EmitData { text: t } && t@ == text,
                None => r matches ClientReadStep::Fail { error: e } && e is ClientParseError,
            },
            ClientReadEvent::Failed => (r matches ClientReadStep::Fail { error: e }
                && e is ClientReadError),
        },
{
    match event {
        ClientReadEvent::Closed => ClientReadStep::EmitDisconnect,
        ClientReadEvent::Data { bytes } => match decode_utf8(bytes) {
            Some(text) => ClientReadStep::EmitData { text },
            None => ClientReadStep::Fail { error: TcpClientTaskError::ClientParseError },
        },
        ClientReadEvent::Failed => ClientReadStep::Fail {
            error: TcpClientTaskError::ClientReadError,
        },
    }
}

/// What the write loop does next.
pub enum ClientWriteStep {
    /// End the loop - and with it the task - cleanly.
    Finish,
    /// Write exactly these bytes to the socket, unmodified and unframed.
    Write { data: String },
}

/// One decision of the write loop: a closed channel or a `Stop` ends the
/// loop cleanly; `Send` hands the data through byte for byte.
pub fn client_write_step(message: Option<TcpClientTaskMessage>) -> (r: ClientWriteStep)
    ensures
        message is None ==> r is Finish,
        message matches Some(m) ==> match m {
            TcpClientTaskMessage::Stop => r is Finish,
            TcpClientTaskMessage::Send { data } => (r matches ClientWriteStep::Write { data: d }
                && d == data),
        },
{
    match message {
        None => ClientWriteStep::Finish,
        Some(TcpClientTaskMessage::Stop) => ClientWriteStep::Finish,
        Some(TcpClientTaskMessage::Send { data }) => ClientWriteStep::Write { data },
    }
}

/// One event as a connection's trace records it: the shape of the bus
/// action, with a data event keeping the text it carried.
pub enum ClientTraceEvent {
    Connect,
    Data { text: Seq<char> },
    Disconnect,
}

/// The event order a consumer can observe on the bus for one connection:
/// `Connect` comes exactly first, and `Disconnect`, if it appears, is last.
/// In between there is nothing but data.
pub open spec fn valid_client_trace(t: Seq<ClientTraceEvent>) -> bool {
    &&& forall|i: int| 0 <= i < t.len() ==> ((#[trigger] t[i]) is Connect <==> i == 0)
    &&& forall|i: int| 0 <= i < t.len() && (#[trigger] t[i]) is Disconnect ==> i == t.len() - 1
}

/// Where one connection task stands in its life.
pub enum TcpClientPhase {
    /// Spawned; its `Connect` event is not on the bus yet.
    Starting,
    /// `Connect` was delivered; the two loops are racing.
    Running,
    /// The task has ended, for any reason; no further event is ever emitted
    /// for this connection.
    Terminated,
}

/// The verified lifecycle of one connection task.
///
/// The unverified shell reports each emission attempt's outcome and each
/// loop exit here; in exchange the ghost trace of the events that reached
/// the bus for this connection always satisfies [`valid_client_trace`].
/// Every emitting method requires a phase before `Terminated`, so once the
/// task is over its trace is final: no event is ever recorded for a dead
/// capability.
pub struct TcpClientProtocol {
    phase: TcpClientPhase,
    trace: Ghost<Seq<ClientTraceEvent>>,
    pending: Ghost<Option<Seq<char>>>,
}

impl TcpClientProtocol {
    /// The task's current phase.
    pub closed spec fn phase_spec(&self) -> TcpClientPhase {
        self.phase
    }

    /// The events delivered to the bus for this connection, in delivery
    /// order, each data event with its text.
    pub closed spec fn trace_spec(&self) -> Seq<ClientTraceEvent> {
        self.trace@
    }

    /// The text whose emission is under way, between [`Self::begin_data`]
    /// and the following [`Self::data_attempted`].
    pub closed spec fn pending_spec(&self) -> Option<Seq<char>> {
        self.pending@
    }

    pub open spec fn wf(&self) -> bool {
        &&& valid_client_trace(self.trace_spec())
        &&& match self.phase_spec() {
            TcpClientPhase::Starting => self.trace_spec().len() == 0,
            TcpClientPhase::Running => self.trace_spec().len() >= 1 && (forall|i: int|
                0 <= i < self.trace_spec().len() ==> !((#[trigger] self.trace_spec()[i]) is Disconnect)),
            TcpClientPhase::Terminated => true,
        }
        &&& (self.pending_spec() is Some ==> self.phase_spec() is Running)
    }

    /// Whether the task is over; once true it stays true, and no further
    /// event is ever recorded.
    pub fn is_terminated(&self) -> (r: bool)
        ensures
            r == (self.phase_spec() is Terminated),
    {
        match self.phase {
            TcpClientPhase::Terminated => true,
            _ => false,
        }
    }

    /// A freshly spawned task: nothing emitted yet.
    pub fn new() -> (r: Self)
        ensures
            r.wf(),
            r.phase_spec() is Starting,
            r.trace_spec() == Seq::<ClientTraceEvent>::empty(),
            r.pending_spec() is None,
    {
        TcpClientProtocol {
            phase: TcpClientPhase::Starting,
            trace: Ghost(Seq::empty()),
            pending: Ghost(None),
        }
    }

    /// The task tried to put its `Connect` event on the bus.  If the bus
    /// took it, the loops may start; if not, the task dies on the spot with
    /// `ClientConnectError` and the socket is simply dropped - nothing was
    /// ever observed for this connection.
    pub fn connect_attempted(&mut self, delivered: bool) -> (r: Option<TcpClientTaskError>)
        requires
            old(self).wf(),
            old(self).phase_spec() is Starting,
        ensures
            final(self).wf(),
            final(self).pending_spec() is None,
            delivered ==> {
                &&& final(self).phase_spec() is Running
                &&& final(self).trace_spec() == old(self).trace_spec().push(
                    ClientTraceEvent::Connect,
                )
                &&& r is None
            },
            !delivered ==> {
                &&& final(self).phase_spec() is Terminated
                &&& final(self).trace_spec() == old(self).trace_spec()
                &&& (r matches Some(e) && e is ClientConnectError)
            },
    {
        if delivered {
            self.phase = TcpClientPhase::Running;
            proof {
                self.trace@ = self.trace@.push(ClientTraceEvent::Connect);
            }
            None
        } else {
            self.phase = TcpClientPhase::Terminated;
            Some(TcpClientTaskError::ClientConnectError)
        }
    }

    /// The read loop has one decoded chunk in hand and is about to attempt
    /// its emission; the text is noted so that, if the bus takes the event,
    /// the trace carries it.
    pub fn begin_data(&mut self, data: &str)
        requires
            old(self).wf(),
            old(self).phase_spec() is Running,
            old(self).pending_spec() is None,
        ensures
            final(self).wf(),
            final(self).phase_spec() is Running,
            final(self).trace_spec() == old(self).trace_spec(),
            final(self).pending_spec() == Some(data@),
    {
        proof {
            self.pending@ = Some(data@);
        }
    }

    /// The task tried to put the begun `SendData` event on the bus.  A full
    /// or closed bus is fatal to the owning connection - slow consumption
    /// kills the connection rather than queueing unboundedly - but the
    /// events already delivered stand untouched: the consumer sees an
    /// omission, never a gap or corruption.
    pub fn data_attempted(&mut self, delivered: bool) -> (r: Option<TcpClientTaskError>)
        requires
            old(self).wf(),
            old(self).pending_spec() is Some,
        ensures
            final(self).wf(),
            final(self).pending_spec() is None,
            delivered ==> {
                &&& final(self).phase_spec() is Running
                &&& final(self).trace_spec() == old(self).trace_spec().push(
                    ClientTraceEvent::Data { text: old(self).pending_spec()->Some_0 },
                )
                &&& r is None
            },
            !delivered ==> {
                &&& final(self).phase_spec() is Terminated
                &&& final(self).trace_spec() == old(self).trace_spec()
                &&& (r matches Some(e) && e is ClientDataError)
            },
    {
        if delivered {
            proof {
                self.trace@ = self.trace@.push(
                    ClientTraceEvent::Data { text: self.pending@->Some_0 },
                );
                self.pending@ = None;
            }
            None
        } else {
            self.phase = TcpClientPhase::Terminated;
            proof {
                self.pending@ = None;
            }
            Some(TcpClientTaskError::ClientDataError)
        }
    }

    /// The peer closed the socket and the task tried to put `Disconnect`
    /// on the bus.  Either way the task is over; a delivered `Disconnect`
    /// is the trace's final event.
    pub fn disconnect_attempted(&mut self, delivered: bool) -> (r: Option<TcpClientTaskError>)
        requires
            old(self).wf(),
            old(self).phase_spec() is Running,
            old(self).pending_spec() is None,
        ensures
            final(self).wf(),
            final(self).phase_spec() is Terminated,
            delivered ==> final(self).trace_spec() == old(self).trace_spec().push(
                ClientTraceEvent::Disconnect,
            ) && r is None,
            !delivered ==> final(self).trace_spec() == old(self).trace_spec() && (r matches Some(e)
                && e is ClientDisconnectError),
    {
        self.phase = TcpClientPhase::Terminated;
        if delivered {
            proof {
                self.trace@ = self.trace@.push(ClientTraceEvent::Disconnect);
            }
            None
        } else {
            Some(TcpClientTaskError::ClientDisconnectError)
        }
    }

    /// A socket read failed: fatal to the owning connection, nothing emitted.
    pub fn read_failed(&mut self) -> (r: TcpClientTaskError)
        requires
            old(self).wf(),
            old(self).phase_spec() is Running,
            old(self).pending_spec() is None,
        ensures
            final(self).wf(),
            final(self).phase_spec() is Terminated,
            final(self).trace_spec() == old(self).trace_spec(),
            r is ClientReadError,
    {
        self.phase = TcpClientPhase::Terminated;
        TcpClientTaskError::ClientReadError
    }

    /// A chunk failed UTF-8 decoding: fatal to that one connection, nothing
    /// emitted; concurrently open connections are separate values of this
    /// type and stand untouched.
    pub fn parse_failed(&mut self) -> (r: TcpClientTaskError)
        requires
            old(self).wf(),
            old(self).phase_spec() is Running,
            old(self).pending_spec() is None,
        ensures
            final(self).wf(),
            final(self).phase_spec() is Terminated,
            final(self).trace_spec() == old(self).trace_spec(),
            r is ClientParseError,
    {
        self.phase = TcpClientPhase::Terminated;
        TcpClientTaskError::ClientParseError
    }

    /// A socket write failed: fatal to the owning connection; the error keeps the data
    /// that could not be written and the write error itself.
    pub fn write_failed(&mut self, data: String, cause: std::io::Error) -> (r: TcpClientTaskError)
        requires
            old(self).wf(),
            old(self).phase_spec() is Running,
            old(self).pending_spec() is None,
        ensures
            final(self).wf(),
            final(self).phase_spec() is Terminated,
            final(self).trace_spec() == old(self).trace_spec(),
            r == TcpClientTaskError::ClientWriteError(data, cause),
    {
        self.phase = TcpClientPhase::Terminated;
        TcpClientTaskError::ClientWriteError(data, cause)
    }

    /// The write loop ended cleanly (`Stop`, or its channel closed); the
    /// race makes that the end of the whole task, with nothing emitted.
    pub fn write_finished(&mut self)
        requires
            old(self).wf(),
            old(self).phase_spec() is Running,
            old(self).pending_spec() is None,
        ensures
            final(self).wf(),
            final(self).phase_spec() is Terminated,
            final(self).trace_spec() == old(self).trace_spec(),
    {
        self.phase = TcpClientPhase::Terminated;
    }
}

/// Round trip: whatever data was enqueued through the capability as a
/// `Send` message, the write loop that receives it before any `Stop` hands
/// to the socket unchanged, byte for byte.
pub proof fn lemma_write_round_trip(data: String, r: ClientWriteStep)
    requires
        call_ensures(
            client_write_step,
            (Some(TcpClientTaskMessage::Send { data }),),
            r,
        ),
    ensures
        r matches ClientWriteStep::Write { data: d } && d == data,
{
}

/// For every connection, whatever path its task took: the bus observes
/// exactly one `Connect`, and it comes first; data events only after it and
/// in arrival order; `Disconnect` at most once, only as the final event.
pub proof fn lemma_client_trace_shape(p: TcpClientProtocol)
    requires
        p.wf(),
    ensures
        valid_client_trace(p.trace_spec()),
        p.trace_spec().len() > 0 ==> p.trace_spec()[0] is Connect,
        forall|i: int| 1 <= i < p.trace_spec().len() ==> !((#[trigger] p.trace_spec()[i]) is Connect),
        forall|i: int|
            0 <= i < p.trace_spec().len() - 1 ==> !((#[trigger] p.trace_spec()[i]) is Disconnect),
        forall|i: int| 1 <= i < p.trace_spec().len() - 1 ==> (#[trigger] p.trace_spec()[i]) is Data,
{
}

} // verus!
