use vstd::prelude::*;
use crate::desktop::{Action, Desktop};

verus! {

/// What a failed call does to the rest of its plan.
#[derive(Clone, Copy, Debug, PartialEq, Eq, Structural)]
pub enum OnError {
    /// The plan stops and the error is the command's result.
    Propagate,
    /// The failure is dropped and the plan goes on.
    Ignore,
}

/// One call of a plan, with what its failure means.
#[derive(Clone, Copy, Debug, PartialEq, Eq, Structural)]
pub struct Step {
    pub action: Action,
    pub on_error: OnError,
}

pub open spec fn propagating(action: Action) -> Step {
    Step { action, on_error: OnError::Propagate }
}

pub open spec fn ignoring(action: Action) -> Step {
    Step { action, on_error: OnError::Ignore }
}

/// The desktop after every call of `steps` succeeded, in order.
pub open spec fn run(d: Desktop, steps: Seq<Step>) -> Desktop
    decreases steps.len(),
{
    if steps.len() == 0 {
        d
    } else {
        run(d, steps.drop_last()).applied(steps.last().action)
    }
}

impl Step {
    pub fn propagating(action: Action) -> (r: Step)
        ensures
            r == propagating(action),
    {
        Step { action, on_error: OnError::Propagate }
    }

    pub fn ignoring(action: Action) -> (r: Step)
        ensures
            r == ignoring(action),
    {
        Step { action, on_error: OnError::Ignore }
    }
}

impl Desktop {
    /// Records that every call of `plan` succeeded, in order.
    pub fn run_plan(&mut self, plan: &Vec<Step>)
        ensures
            *final(self) == run(*old(self), plan@),
    {
        let ghost start = *self;
        let mut i: usize = 0;
        while i < plan.len()
            invariant
                i <= plan.len(),
                *self == run(start, plan@.take(i as int)),
            decreases plan.len() - i,
        {
            assert(plan@.take(i + 1).drop_last() =~= plan@.take(i as int));
            self.apply(plan[i].action);
            i = i + 1;
        }
        assert(plan@.take(plan.len() as int) =~= plan@);
    }
}

} // verus!
