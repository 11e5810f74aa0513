use vstd::prelude::*;

verus! {

/// A registration: the closure that a native callback slot dispatches to,
/// owned behind a single allocation whose address stays stable while installed.
pub struct CallbackWrapper<F> {
    pub callback: F,
}

impl<F> CallbackWrapper<F> {
    /// Boxes `callback`, taking ownership of it (and of everything it captured).
    pub fn new(callback: F) -> (r: Box<Self>)
        ensures
            r.callback == callback,
    {
        Box::new(CallbackWrapper { callback })
    }
}

} // verus!
