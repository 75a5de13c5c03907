//! The events every connection task funnels onto the bus, and the
//! per-connection emitter that puts them there.
use vstd::prelude::*;
use tokio::sync::mpsc::Sender;
use tokio::sync::mpsc::error::TrySendError;
use crate::client_handler::TcpClientTaskHandle;

verus! {

/// One connection's lifecycle or data event, as the bus carries it.  The
/// capability it holds is the only way the consumer can ever address that
/// connection.
#[derive(Debug)]
pub enum TcpClientAction {
    Connect { handle: TcpClientTaskHandle },
    Disconnect { handle: TcpClientTaskHandle },
    SendData { handle: TcpClientTaskHandle, data: String },
}

/// One connection task's grip on the bus: the shared send endpoint plus the
/// capability to stamp onto each event.  Each emission consumes the value;
/// the task builds a fresh one per attempt from its two cloneable parts.
pub struct TcpClientActionHandle {
    sender: Sender<TcpClientAction>,
    client_task_handle: TcpClientTaskHandle,
}

impl TcpClientActionHandle {
    pub fn new(sender: Sender<TcpClientAction>, client_task_handle: TcpClientTaskHandle) -> Self {
        TcpClientActionHandle { sender, client_task_handle }
    }

    /// Best-effort, non-blocking emission of `Disconnect`.  Fails exactly
    /// when the bus is full or closed; per the backpressure policy that
    /// failure is fatal to the emitting task (see
    /// `TcpClientProtocol::disconnect_attempted`, which takes this call's
    /// outcome).
    pub fn client_disconnect(self) -> Result<(), TrySendError<TcpClientAction>> {
        self.sender.try_send(TcpClientAction::Disconnect { handle: self.client_task_handle })
    }

    /// Best-effort, non-blocking emission of `Connect`; same failure modes
    /// as [`Self::client_disconnect`].
    pub fn client_connect(self) -> Result<(), TrySendError<TcpClientAction>> {
        self.sender.try_send(TcpClientAction::Connect { handle: self.client_task_handle })
    }

    /// Best-effort, non-blocking emission of `SendData` carrying `data`
    /// unchanged; same failure modes as [`Self::client_disconnect`].
    pub fn client_data(self, data: String) -> Result<(), TrySendError<TcpClientAction>> {
        self.sender.try_send(TcpClientAction::SendData {
            handle: self.client_task_handle,
            data,
        })
    }
}

} // verus!
