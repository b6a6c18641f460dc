//! Supervisor state: the single write-once slot that holds the child handle.
use vstd::prelude::*;

verus! {

/// The slot after an attempt to store `h` in `slot`: an empty slot takes the
/// handle, a filled one keeps what it holds.
pub open spec fn store_spec<T>(slot: Option<T>, h: T) -> Option<T> {
    match slot {
        Some(held) => Some(held),
        None => Some(h),
    }
}

/// A slot that holds at most one handle, set once and never replaced.
pub struct ServerSlot<T> {
    child: Option<T>,
}

impl<T> View for ServerSlot<T> {
    type V = Option<T>;

    closed spec fn view(&self) -> Option<T> {
        self.child
    }
}

impl<T> ServerSlot<T> {
    /// An empty slot.
    pub fn new() -> (r: ServerSlot<T>)
        ensures
            r@ == None::<T>,
    {
        ServerSlot { child: None }
    }

    /// Stores `h` if the slot is empty. A filled slot keeps its handle and
    /// hands `h` back as the error.
    pub fn store(&mut self, h: T) -> (r: Result<(), T>)
        ensures
            final(self)@ == store_spec(old(self)@, h),
            old(self)@ is None <==> r is Ok,
            r is Err ==> r == Err::<(), T>(h),
    {
        if self.child.is_some() {
            Err(h)
        } else {
            self.child = Some(h);
            Ok(())
        }
    }

    /// The stored handle, if any.
    pub fn get(&self) -> (r: Option<&T>)
        ensures
            match r {
                Some(h) => self@ == Some(*h),
                None => self@ is None,
            },
    {
        match &self.child {
            Some(h) => Some(h),
            None => None,
        }
    }
}

/// The slot is write-once: after a handle is stored in an empty slot, any
/// number of later attempts leave that same handle in place.
pub proof fn lemma_first_store_is_kept<T>(h: T, later: Seq<T>)
    ensures
        later.fold_left(store_spec(None, h), |s: Option<T>, x: T| store_spec(s, x)) == Some(h),
    decreases later.len(),
{
    if later.len() > 0 {
        lemma_first_store_is_kept(h, later.drop_last());
    }
}

} // verus!
