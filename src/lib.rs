//! Runs a block of code when the surrounding scope ends, like Go's `defer`,
//! but bound to the enclosing block rather than the enclosing function, so
//! that it composes inside loops and nested blocks.
//!
//! A [`Defer`] holds a single-use action and the teardown pass that fires
//! it: [`Defer::release`] takes the action out of the guard and runs it,
//! exactly once however often the pass is repeated. A scope guard calls that
//! pass from its destructor, so the action fires on every exit from the
//! scope (normal fall-through, early return, or unwinding), and guards in
//! one scope fire in reverse order of declaration, as Rust drops locals.
//! A failure raised by the action is not caught: it propagates out of the
//! pass.
use vstd::prelude::*;

verus! {

/// The action slot of a guard, together with the ghost count of how many
/// times the action has been invoked. The two are replaced in one step, so
/// that the guard's invariant holds after every mutation.
struct Slot<F: FnOnce()> {
    func: Option<F>,
    runs: Ghost<nat>,
}

/// The state of a scope guard: an action that runs once, on teardown.
///
/// The guard has two states. It is armed (the action is present and has not
/// run) from construction until its teardown pass, and fired (the slot is
/// empty and the action has run once) from then on. There is no way back.
pub struct Defer<F: FnOnce()> {
    slot: Slot<F>,
}

impl<F: FnOnce()> Defer<F> {
    /// Armed exactly while the action has not run; an armed action may be
    /// called with no arguments; the action runs at most once.
    #[verifier::type_invariant]
    spec fn inv(self) -> bool {
        match self.slot.func {
            Some(f) => self.slot.runs@ == 0 && f.requires(()),
            None => self.slot.runs@ == 1,
        }
    }

    /// The action is still present and has not been invoked.
    pub closed spec fn armed(self) -> bool {
        self.slot.func is Some
    }

    /// How many times the guard has invoked its action.
    pub closed spec fn runs(self) -> nat {
        self.slot.runs@
    }

    /// The action held by an armed guard.
    pub closed spec fn action(self) -> F {
        self.slot.func->Some_0
    }

    /// Creates an armed guard that holds `func`.
    pub fn new(func: F) -> (r: Self)
        requires
            func.requires(()),
        ensures
            r.armed(),
            r.action() == func,
            r.runs() == 0,
    {
        Self { slot: Slot { func: Some(func), runs: Ghost(0) } }
    }

    /// One teardown pass: empties the slot and, only if the action was still
    /// there, invokes it. Afterwards the action has run exactly once, whatever
    /// state the guard was in; a pass over a guard that has already fired
    /// finds the slot empty, calls nothing and changes nothing. The slot is
    /// emptied before the action is called, and a failure of the action
    /// propagates to the caller.
    pub fn release(&mut self)
        ensures
            !final(self).armed(),
            final(self).runs() == 1,
            old(self).armed() ==> old(self).runs() == 0,
            old(self).armed() ==> call_ensures(old(self).action(), (), ()),
            !old(self).armed() ==> *final(self) == *old(self),
    {
        proof {
            use_type_invariant(&*self);
        }
        let mut spent = Slot { func: None, runs: Ghost(1) };
        core::mem::swap(&mut self.slot, &mut spent);
        match spent.func {
            Some(f) => f(),
            None => {},
        }
    }
}

} // verus!
