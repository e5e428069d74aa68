//! The result of a type-state transition: either the machine stayed in the
//! state it was in (and the caller gets the original envelope back, losing
//! nothing), or it advanced (and the caller gets the freshly wrapped value of
//! the destination state).  A "no transition yet" outcome is an expected,
//! common case, so it is an ordinary variant consumed by pattern matching,
//! never a panic.
use vstd::prelude::*;
use core::ops::ControlFlow;

verus! {

pub enum Transition<TCurr, TNext> {
    Unchanged(TCurr),
    ChangedTo(TNext),
}

/// What `branch` returns: staying in the current state continues the caller's
/// control flow with the original value, advancing breaks out with the new one.
pub open spec fn spec_branch<TCurr, TNext>(t: Transition<TCurr, TNext>) -> ControlFlow<
    TNext,
    TCurr,
> {
    match t {
        Transition::Unchanged(same) => ControlFlow::Continue(same),
        Transition::ChangedTo(new) => ControlFlow::Break(new),
    }
}

impl<TCurr, TNext> Transition<TCurr, TNext> {
    /// A plain output (the machine did not advance) becomes `Unchanged`.
    pub fn from_output(output: TCurr) -> (r: Self)
        ensures
            r == Transition::<TCurr, TNext>::Unchanged(output),
    {
        Transition::Unchanged(output)
    }

    /// A residual (the machine advanced) becomes `ChangedTo`.
    pub fn from_residual(residual: TNext) -> (r: Self)
        ensures
            r == Transition::<TCurr, TNext>::ChangedTo(residual),
    {
        Transition::ChangedTo(residual)
    }

    /// Early-return consumption of a transition result: `Unchanged` continues
    /// with the envelope it holds, `ChangedTo` breaks with the new value.
    /// Neither branch alters what it carries.
    pub fn branch(self) -> (r: ControlFlow<TNext, TCurr>)
        ensures
            r == spec_branch(self),
    {
        match self {
            Transition::Unchanged(same) => ControlFlow::Continue(same),
            Transition::ChangedTo(new) => ControlFlow::Break(new),
        }
    }
}

/// Consuming a transition result loses nothing: the value that comes out of
/// `branch`, on either path, is exactly the value that went in.
pub proof fn lemma_branch_non_loss<TCurr, TNext>(t: Transition<TCurr, TNext>)
    ensures
        forall|same: TCurr|
            t == Transition::<TCurr, TNext>::Unchanged(same) ==> spec_branch(t)
                == ControlFlow::<TNext, TCurr>::Continue(same),
        forall|new: TNext|
            t == Transition::<TCurr, TNext>::ChangedTo(new) ==> spec_branch(t) == ControlFlow::<
                TNext,
                TCurr,
            >::Break(new),
{
}

} // verus!
