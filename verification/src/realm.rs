//! The outer orchestrator's verified decision logic.
//!
//! A realm owns one acceptor and consumes its bus.  Its loop races the next
//! bus action, its own `Stop` message, and the acceptor's join result; the
//! decision on whichever fired is [`realm_step`].  On any loop exit the
//! shell sends the acceptor a best-effort `Stop`, awaits its join, and
//! folds the outcome into the realm's final result with
//! [`realm_shutdown_result`].
use vstd::prelude::*;
use crate::action_handler::ActionHandlerError;
use crate::server::TcpServerError;

verus! {

/// What ends a realm.
#[derive(Debug, PartialEq, Eq, Structural)]
pub enum RealmError {
    /// The action handler returned an error for a consumed action.
    ClientHandleError,
    /// The acceptor's join failed, or the acceptor itself ended with an
    /// error.
    ServerError,
}

/// How the acceptor's join resolved.
pub enum TcpServerJoinOutcome {
    /// The join itself failed: the acceptor task panicked or was cancelled.
    JoinFailed,
    /// The acceptor ran to completion with this result.
    Finished { result: Result<(), TcpServerError> },
}

/// What one turn of the realm loop saw.
pub enum RealmEvent {
    /// An action was taken off the bus and handed to the action handler,
    /// which returned this.
    ActionHandled { result: Result<(), ActionHandlerError> },
    /// The realm's own `Stop` message arrived.
    StopReceived,
    /// The acceptor's join resolved while the loop was still running.
    ServerFinished { outcome: TcpServerJoinOutcome },
}

/// What the realm loop does next.
pub enum RealmStep {
    /// Keep looping.
    Continue,
    /// Leave the loop, remembering `error`; shutdown follows
    /// unconditionally.
    Break { error: Option<RealmError> },
}

/// One decision of the realm loop: a handled action continues the loop
/// unless the handler failed, which is fatal as `ClientHandleError`; `Stop`
/// leaves the loop cleanly; the acceptor resolving leaves the loop too -
/// with `ServerError` exactly when the join failed or the acceptor ended in
/// error.
pub fn realm_step(event: &RealmEvent) -> (r: RealmStep)
    ensures
        match *event {
            RealmEvent::ActionHandled { result } => match result {
                Ok(()) => r is Continue,
                Err(_) => (r matches RealmStep::Break { error: e } && e == Some(
                    RealmError::ClientHandleError,
                )),
            },
            RealmEvent::StopReceived => (r matches RealmStep::Break { error: e } && e is None),
            RealmEvent::ServerFinished { outcome } => match outcome {
                TcpServerJoinOutcome::JoinFailed => (r matches RealmStep::Break { error: e }
                    && e == Some(RealmError::ServerError)),
                TcpServerJoinOutcome::Finished { result } => match result {
                    Ok(()) => (r matches RealmStep::Break { error: e } && e is None),
                    Err(_) => (r matches RealmStep::Break { error: e } && e == Some(
                        RealmError::ServerError,
                    )),
                },
            },
        },
{
    match event {
        RealmEvent::ActionHandled { result } => {
            if result.is_ok() {
                RealmStep::Continue
            } else {
                RealmStep::Break { error: Some(RealmError::ClientHandleError) }
            }
        },
        RealmEvent::StopReceived => RealmStep::Break { error: None },
        RealmEvent::ServerFinished { outcome } => match outcome {
            TcpServerJoinOutcome::JoinFailed => RealmStep::Break {
                error: Some(RealmError::ServerError),
            },
            TcpServerJoinOutcome::Finished { result } => {
                if result.is_ok() {
                    RealmStep::Break { error: None }
                } else {
                    RealmStep::Break { error: Some(RealmError::ServerError) }
                }
            },
        },
    }
}

/// The realm's final result, after the unconditional shutdown: a failure
/// of the acceptor's awaited join - the join erroring, or the acceptor
/// ending in error - overrides whatever the loop had recorded and yields
/// `ServerError`; a clean join lets the loop's own outcome stand.
pub fn realm_shutdown_result(
    loop_error: Option<RealmError>,
    server_join: TcpServerJoinOutcome,
) -> (r: Result<(), RealmError>)
    ensures
        match server_join {
            TcpServerJoinOutcome::JoinFailed => r == Err::<(), RealmError>(RealmError::ServerError),
            TcpServerJoinOutcome::Finished { result } => match result {
                Err(_) => r == Err::<(), RealmError>(RealmError::ServerError),
                Ok(()) => match loop_error {
                    None => r is Ok,
                    Some(e) => r == Err::<(), RealmError>(e),
                },
            },
        },
{
    match server_join {
        TcpServerJoinOutcome::JoinFailed => Err(RealmError::ServerError),
        TcpServerJoinOutcome::Finished { result } => match result {
            Err(_) => Err(RealmError::ServerError),
            Ok(()) => match loop_error {
                None => Ok(()),
                Some(e) => Err(e),
            },
        },
    }
}

} // verus!
