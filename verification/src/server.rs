//! The acceptor: the control messages and errors of the listening loop, the
//! handle that stops it, and the verified decision logic of each loop turn.
//!
//! The loop itself waits on three sources at once - a new inbound
//! connection, a finished connection task, a control message - with no fixed
//! priority among ready ones.  Those waits happen in the unverified shell;
//! the decision taken on whichever source fired is [`TcpServer::handle_event`].
use vstd::prelude::*;
use tokio::sync::mpsc::Sender;
use crate::client_handler::TcpClientTaskError;

verus! {

/// Capacity of the bus and of every control channel: deliberately small and
/// fixed, trading memory and latency for responsiveness at the price of
/// cascading producer failure under load.
pub const BUFFER_SIZE: usize = 8;

/// The acceptor component.  Its loop runs in the unverified shell; the
/// decisions the loop takes are the associated functions here.
pub struct TcpServer {}

/// What the acceptor's control channel carries.  `Other` is reserved and
/// unused.
#[derive(Debug)]
pub enum TcpServerMessage {
    Stop,
    Other,
}

impl TcpServerMessage {
    /// The message's name, as it is rendered for an operator.
    pub fn label(&self) -> (r: String)
        ensures
            self is Stop ==> r@ == "Stop"@,
            self is Other ==> r@ == "Other"@,
    {
        match self {
            TcpServerMessage::Stop => "Stop".to_owned(),
            TcpServerMessage::Other => "Other".to_owned(),
        }
    }
}

/// What can end the acceptor, or fail a request to it.
#[derive(Debug)]
pub enum TcpServerError {
    /// Binding the listener failed; fatal before the loop ever starts.
    BindingError { address: String, source: std::io::Error },
    /// Accepting a connection failed; fatal to the whole acceptor.
    AcceptClientError(std::io::Error),
    /// A control message could not be enqueued (channel full or closed).
    SendMessageError(TcpServerMessage),
    /// Reserved: joining the connection tasks failed.
    JoiningError,
    /// Reserved: a connection task ended with this error.
    ClientTaskError(TcpClientTaskError),
}

/// The send endpoint of the acceptor's control channel.
pub struct TcpServerHandle(Sender<TcpServerMessage>);

impl TcpServerHandle {
    pub fn new(sender: Sender<TcpServerMessage>) -> Self {
        TcpServerHandle(sender)
    }

    /// Best-effort, non-blocking request that the acceptor leave its loop.
    ///
    /// Safe to call any number of times, before or after the acceptor has
    /// stopped: it never panics and never blocks.  It gives no delivery
    /// guarantee and does not wait for the loop to exit - a caller that
    /// wants to observe the exit awaits the acceptor's join result
    /// separately.  Failure means only that the control channel was full or
    /// already closed.
    pub fn stop(&self) -> (r: Result<(), TcpServerError>)
        ensures
            r matches Err(e) ==> (e matches TcpServerError::SendMessageError(m) && m is Stop),
    {
        match self.0.try_send(TcpServerMessage::Stop) {
            Ok(()) => Ok(()),
            Err(_) => Err(TcpServerError::SendMessageError(TcpServerMessage::Stop)),
        }
    }
}

/// What one turn of the acceptor loop saw.
pub enum TcpServerEvent {
    /// A new inbound connection was accepted.
    ClientAccepted,
    /// Accepting failed with this error.
    AcceptFailed { source: std::io::Error },
    /// A previously spawned connection task finished, well or badly.
    ClientTaskFinished,
    /// A `Stop` control message arrived.
    StopReceived,
}

/// What the acceptor loop does next.
pub enum TcpServerStep {
    /// Spawn a connection task over the new socket, sharing the bus, and
    /// register its completion for later joining; then keep looping.
    SpawnClient,
    /// Keep looping.
    Continue,
    /// Leave the loop; after every outstanding connection task has been
    /// awaited, `result` is the acceptor's join result.
    Break { result: Result<(), TcpServerError> },
}

impl TcpServer {
    /// One decision of the acceptor loop.
    ///
    /// A new connection is handed a task; an accept failure is fatal and
    /// becomes the loop's error result; a finished connection task is
    /// discarded - its outcome, success or error, is invisible to the
    /// acceptor - and `Stop` leaves the loop with a clean result even if an
    /// accept is logically in flight.  On every exit path the loop then
    /// awaits all outstanding connection tasks without ever signalling
    /// them; they must end on their own.
    pub fn handle_event(event: TcpServerEvent) -> (r: TcpServerStep)
        ensures
            match event {
                TcpServerEvent::ClientAccepted => r is SpawnClient,
                TcpServerEvent::AcceptFailed { source } => (r matches TcpServerStep::Break {
                    result: res,
                } && res matches Err(e) && e matches TcpServerError::AcceptClientError(c)
                    && c == source),
                TcpServerEvent::ClientTaskFinished => r is Continue,
                TcpServerEvent::StopReceived => (r matches TcpServerStep::Break { result: res }
                    && res is Ok),
            },
    {
        match event {
            TcpServerEvent::ClientAccepted => TcpServerStep::SpawnClient,
            TcpServerEvent::AcceptFailed { source } => TcpServerStep::Break {
                result: Err(TcpServerError::AcceptClientError(source)),
            },
            TcpServerEvent::ClientTaskFinished => TcpServerStep::Continue,
            TcpServerEvent::StopReceived => TcpServerStep::Break { result: Ok(()) },
        }
    }

    /// The `address:port` string the listener binds.
    pub fn binding(address: &str, port: u16) -> (r: String)
        ensures
            r@ == address@ + seq![':'] + dec_digits(port as int),
    {
        let mut s = address.to_owned();
        s.append(":");
        let p = format_port(port);
        s.append(p.as_str());
        proof {
            reveal_strlit(":");
            assert(s@ =~= address@ + seq![':'] + dec_digits(port as int));
        }
        s
    }
}

/// The decimal digits of `n`, most significant first.
pub open spec fn dec_digits(n: int) -> Seq<char>
    decreases n,
{
    if n < 10 {
        seq![digit_char(n)]
    } else {
        dec_digits(n / 10).push(digit_char(n % 10))
    }
}

/// The character for one decimal digit.
pub open spec fn digit_char(d: int) -> char {
    if d == 0 { '0' }
    else if d == 1 { '1' }
    else if d == 2 { '2' }
    else if d == 3 { '3' }
    else if d == 4 { '4' }
    else if d == 5 { '5' }
    else if d == 6 { '6' }
    else if d == 7 { '7' }
    else if d == 8 { '8' }
    else { '9' }
}

fn digit_str(d: u16) -> (r: &'static str)
    requires
        d < 10,
    ensures
        r@ =~= seq![digit_char(d as int)],
{
    proof {
        reveal_strlit("0");
        reveal_strlit("1");
        reveal_strlit("2");
        reveal_strlit("3");
        reveal_strlit("4");
        reveal_strlit("5");
        reveal_strlit("6");
        reveal_strlit("7");
        reveal_strlit("8");
        reveal_strlit("9");
    }
    match d {
        0 => "0",
        1 => "1",
        2 => "2",
        3 => "3",
        4 => "4",
        5 => "5",
        6 => "6",
        7 => "7",
        8 => "8",
        _ => "9",
    }
}

/// `port`, written in decimal.
fn format_port(port: u16) -> (r: String)
    ensures
        r@ == dec_digits(port as int),
    decreases port,
{
    if port < 10 {
        digit_str(port).to_owned()
    } else {
        let mut s = format_port(port / 10);
        s.append(digit_str(port % 10));
        proof {
            assert(s@ =~= dec_digits((port / 10) as int).push(digit_char((port % 10) as int)));
        }
        s
    }
}

} // verus!
