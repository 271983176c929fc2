//! Reversible redirection of one descriptor onto another.
//!
//! A swap keeps a duplicate of the target descriptor and then points the
//! target at a replacement; a restore points the target back at the duplicate.
//! The duplications themselves are the caller's work: this module decides what
//! is duplicated onto what, and remembers the duplicate in between.

use vstd::prelude::*;

verus! {

/// A request to duplicate `source` onto `target`, so that `target` refers to
/// what `source` refers to.
#[derive(Clone, Copy, PartialEq, Eq, Structural, Debug)]
pub struct Redirect {
    pub source: i32,
    pub target: i32,
}

/// The state of a swap as a mathematical value.
pub struct FdSwapView {
    /// The descriptor that is redirected.
    pub target: i32,
    /// The saved duplicate of the target, while a swap is active.
    pub saved: Option<i32>,
}

impl FdSwapView {
    /// The state of a target that is not swapped.
    pub open spec fn idle(target: i32) -> FdSwapView {
        FdSwapView { target, saved: None }
    }

    /// The state after a swap in which duplicating the target returned
    /// `duplicate`: a descriptor is saved, a failure changes nothing.
    pub open spec fn swapped(self, duplicate: i32) -> FdSwapView {
        if duplicate >= 0 {
            FdSwapView { saved: Some(duplicate), ..self }
        } else {
            self
        }
    }

    /// What a swap asks for: to duplicate `replacement` onto the target, where
    /// duplicating the target gave a descriptor; nothing, where it failed.
    pub open spec fn swap_request(self, duplicate: i32, replacement: i32) -> Option<Redirect> {
        if duplicate >= 0 {
            Some(Redirect { source: replacement, target: self.target })
        } else {
            None
        }
    }

    /// The state after a restore: nothing is saved.
    pub open spec fn restored(self) -> FdSwapView {
        FdSwapView { saved: None, ..self }
    }

    /// What a restore asks for: to duplicate the saved descriptor back onto
    /// the target; nothing, where none is saved.
    pub open spec fn restore_request(self) -> Option<Redirect> {
        match self.saved {
            Some(saved) => Some(Redirect { source: saved, target: self.target }),
            None => None,
        }
    }
}

/// The state of the swap of one target descriptor: the duplicate that a swap
/// saved, until the matching restore takes it back.
#[derive(Debug)]
pub struct FdSwapState {
    target: i32,
    saved: Option<i32>,
}

impl View for FdSwapState {
    type V = FdSwapView;

    closed spec fn view(&self) -> FdSwapView {
        FdSwapView { target: self.target, saved: self.saved }
    }
}

impl FdSwapState {
    /// The state of a target that has not been swapped.
    pub fn new(target: i32) -> (state: Self)
        ensures
            state@ == FdSwapView::idle(target),
    {
        FdSwapState { target, saved: None }
    }

    /// The descriptor that this state redirects.
    pub fn target(&self) -> (target: i32)
        ensures
            target == self@.target,
    {
        self.target
    }

    /// The saved duplicate of the target, while a swap is active.
    pub fn saved(&self) -> (saved: Option<i32>)
        ensures
            saved == self@.saved,
    {
        self.saved
    }

    /// The second half of a swap. `duplicate` is what duplicating the target
    /// returned: a descriptor, or a negative number where the duplication
    /// failed. A descriptor is saved, and the answer asks to duplicate
    /// `replacement` onto the target. On a failure nothing changes and nothing
    /// is asked for.
    ///
    /// A swap on a state that already holds a duplicate forgets the earlier
    /// one: pairing swaps with restores is the caller's duty.
    pub fn swap(&mut self, duplicate: i32, replacement: i32) -> (request: Option<Redirect>)
        ensures
            final(self)@ == old(self)@.swapped(duplicate),
            request == old(self)@.swap_request(duplicate, replacement),
    {
        if duplicate >= 0 {
            self.saved = Some(duplicate);
            Some(Redirect { source: replacement, target: self.target })
        } else {
            None
        }
    }

    /// A restore: where a duplicate is saved, the slot is cleared and the
    /// answer asks to duplicate it back onto the target; otherwise nothing
    /// changes and nothing is asked for. With the slot cleared the duplicate
    /// is the caller's alone: it may close it once it is back on the target.
    pub fn restore(&mut self) -> (request: Option<Redirect>)
        ensures
            final(self)@ == old(self)@.restored(),
            request == old(self)@.restore_request(),
    {
        match self.saved {
            Some(saved) => {
                self.saved = None;
                Some(Redirect { source: saved, target: self.target })
            },
            None => None,
        }
    }
}

/// A swap followed by a restore leaves the state as it was before the swap,
/// whether or not the duplication worked: any number of such pairs behave
/// alike. Where it worked, the restore puts back onto the target exactly the
/// duplicate that the swap saved.
pub proof fn law_swap_then_restore(state: FdSwapView, duplicate: i32, replacement: i32)
    requires
        state.saved is None,
    ensures
        state.swapped(duplicate).restored() == state,
        duplicate >= 0 ==> state.swap_request(duplicate, replacement) == Some(
            Redirect { source: replacement, target: state.target },
        ) && state.swapped(duplicate).restore_request() == Some(
            Redirect { source: duplicate, target: state.target },
        ),
        duplicate < 0 ==> state.swap_request(duplicate, replacement) is None && state.swapped(
            duplicate,
        ).restore_request() is None,
{
}

/// A restore without a swap before it asks for nothing and changes nothing.
pub proof fn law_restore_alone_is_idle(state: FdSwapView)
    requires
        state.saved is None,
    ensures
        state.restored() == state,
        state.restore_request() is None,
{
}

} // verus!
