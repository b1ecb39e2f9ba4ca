//! The place where the handle of the tray icon is kept.

use vstd::prelude::*;

verus! {

/// Holds the handle of the one tray icon of the process, once there is one.
///
/// The store starts out empty, because the menu is built for the first time
/// before the icon exists. It is filled once and never emptied again.
#[derive(Debug)]
pub struct TrayHandle<H> {
    slot: Option<H>,
}

impl<H> View for TrayHandle<H> {
    type V = Option<H>;

    closed spec fn view(&self) -> Option<H> {
        self.slot
    }
}

impl<H> TrayHandle<H> {
    /// A store without a handle.
    pub fn new() -> (store: TrayHandle<H>)
        ensures
            store@ is None,
    {
        TrayHandle { slot: None }
    }

    /// Whether the store holds the handle.
    pub fn is_set(&self) -> (set: bool)
        ensures
            set == (self@ is Some),
    {
        self.slot.is_some()
    }

    /// Puts the handle into the empty store. To fill a store twice is a
    /// mistake of the caller.
    pub fn set(&mut self, handle: H)
        requires
            old(self)@ is None,
        ensures
            final(self)@ == Some(handle),
    {
        self.slot = Some(handle);
    }

    /// Applies `op` to the handle, if there is one, and hands back what it
    /// returned. On an empty store `op` is not called.
    pub fn with<R, F: FnOnce(&H) -> R>(&self, op: F) -> (outcome: Option<R>)
        requires
            self@ matches Some(handle) ==> op.requires((&handle,)),
        ensures
            match self@ {
                Some(handle) => outcome matches Some(result) && op.ensures((&handle,), result),
                None => outcome is None,
            },
    {
        match &self.slot {
            Some(handle) => Some(op(handle)),
            None => None,
        }
    }

    /// Applies the fallible `op` to the handle, if there is one, and hands
    /// back its verdict. An empty store is no failure: `op` is passed over
    /// and the answer is `Ok`.
    pub fn install<E, F: FnOnce(&H) -> Result<(), E>>(&self, op: F) -> (verdict: Result<(), E>)
        requires
            self@ matches Some(handle) ==> op.requires((&handle,)),
        ensures
            match self@ {
                Some(handle) => op.ensures((&handle,), verdict),
                None => verdict is Ok,
            },
    {
        match self.with(op) {
            Some(verdict) => verdict,
            None => Ok(()),
        }
    }
}

} // verus!
