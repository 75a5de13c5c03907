//! The application layer's side of the bus: one synchronous callback per
//! consumed action.
use vstd::prelude::*;
use crate::repository::RepositoryFactory;
use crate::tcp_client_action::TcpClientAction;

verus! {

/// What an action handler may fail with.  The realm treats any returned
/// error as fatal (see `realm_step`); what failed, and on which action, is
/// the handler's own business, so one catch-all variant carries it.
#[derive(Debug)]
pub enum ActionHandlerError {
    Failed,
}

/// Implemented by the application layer.  `handle` is called synchronously
/// inside the realm loop, one action at a time; a slow handler therefore
/// throttles the whole bus, and under the backpressure policy can starve
/// producing connections into failing.
pub trait ActionHandler {
    fn handle<T: RepositoryFactory>(
        &self,
        action: TcpClientAction,
        repository_factory: &T,
    ) -> Result<(), ActionHandlerError>;
}

} // verus!
