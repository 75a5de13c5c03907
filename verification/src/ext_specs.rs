//! Declarations of the outside types and calls the core holds or makes:
//! tokio's bounded-channel send endpoint, its non-blocking send, and the
//! opaque I/O error carried inside this crate's error values.
use vstd::prelude::*;

verus! {

#[verifier::external_type_specification]
#[verifier::external_body]
#[verifier::reject_recursive_types(T)]
pub struct ExSender<T>(tokio::sync::mpsc::Sender<T>);

#[verifier::external_type_specification]
#[verifier::external_body]
#[verifier::reject_recursive_types(T)]
pub struct ExTrySendError<T>(tokio::sync::mpsc::error::TrySendError<T>);

#[verifier::external_type_specification]
#[verifier::external_body]
pub struct ExIoError(std::io::Error);

/// Relies on tokio::sync::mpsc::Sender::try_send: a non-blocking, best-effort
/// enqueue that never panics; it fails exactly when the channel is full or
/// closed, and which of its outcomes comes back depends on the channel's
/// runtime state, so nothing is promised of the result.
pub assume_specification<T>[ tokio::sync::mpsc::Sender::<T>::try_send ](
    s: &tokio::sync::mpsc::Sender<T>,
    message: T,
) -> Result<(), tokio::sync::mpsc::error::TrySendError<T>>;

/// Relies on tokio's `Clone` for `Sender`: cloning shares the same underlying
/// channel and never panics; the clone is a fresh endpoint value, so nothing
/// is promised of it here.  The capability's derived `Clone` resolves to
/// this.
pub assume_specification<T>[ <tokio::sync::mpsc::Sender<T> as Clone>::clone ](
    s: &tokio::sync::mpsc::Sender<T>,
) -> tokio::sync::mpsc::Sender<T>;

} // verus!
