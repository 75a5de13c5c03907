//! A small convenience on `Option`: run an action on the value, if any.
use vstd::prelude::*;

verus! {

pub trait OptionExt<T> {
    /// Calls `action` on the held value when there is one; does nothing on
    /// `None`.
    fn if_present<F: Fn(&T)>(&self, action: F)
        requires
            forall|v: &T| call_requires(action, (v,)),
    ;
}

impl<T> OptionExt<T> for Option<T> {
    fn if_present<F: Fn(&T)>(&self, action: F) {
        if let Some(value) = self {
            action(value);
        }
    }
}

} // verus!
