use vstd::prelude::*;
use crate::desktop::Action;
use crate::plan::{OnError, Step};

verus! {

/// One command's plan being carried out: the caller performs each call that
/// `next_action` hands out and reports how it went with `record`.
pub struct CommandRun {
    steps: Vec<Step>,
    done: usize,
    failure: Option<String>,
}

impl CommandRun {
    /// The plan being carried out.
    pub closed spec fn steps(&self) -> Seq<Step> {
        self.steps@
    }

    /// How many calls have been reported.
    pub closed spec fn done(&self) -> nat {
        self.done as nat
    }

    /// The error that stopped the plan, if one did.
    pub closed spec fn failure(&self) -> Option<Seq<char>> {
        match self.failure {
            Some(e) => Some(e@),
            None => None,
        }
    }

    pub closed spec fn wf(&self) -> bool {
        self.done <= self.steps@.len()
    }

    pub open spec fn finished(&self) -> bool {
        self.failure() is Some || self.done() >= self.steps().len()
    }

    /// Starts carrying out `steps`.
    pub fn new(steps: Vec<Step>) -> (r: CommandRun)
        ensures
            r.wf(),
            r.steps() == steps@,
            r.done() == 0,
            r.failure() is None,
    {
        CommandRun { steps, done: 0, failure: None }
    }

    /// The next call to perform; none once the plan is over.
    pub fn next_action(&self) -> (r: Option<Action>)
        requires
            self.wf(),
        ensures
            r == if self.finished() {
                None
            } else {
                Some(self.steps()[self.done() as int].action)
            },
    {
        if self.failure.is_some() || self.done >= self.steps.len() {
            None
        } else {
            Some(self.steps[self.done].action)
        }
    }

    /// Reports how the call last handed out went. An error stops the plan
    /// only where its step propagates errors.
    pub fn record(&mut self, outcome: Result<(), String>)
        requires
            old(self).wf(),
            !old(self).finished(),
        ensures
            final(self).wf(),
            final(self).steps() == old(self).steps(),
            final(self).done() == old(self).done() + 1,
            final(self).failure() == match outcome {
                Err(e) => if old(self).steps()[old(self).done() as int].on_error
                    == OnError::Propagate {
                    Some(e@)
                } else {
                    None
                },
                Ok(_) => None::<Seq<char>>,
            },
    {
        let done = self.done;
        let n = self.steps.len();
        assert(done < n);
        let policy = self.steps[done].on_error;
        match outcome {
            Err(e) => {
                if policy == OnError::Propagate {
                    self.failure = Some(e);
                }
            },
            Ok(_) => {},
        }
        self.done = done + 1;
    }

    /// The command's result: the error that stopped the plan, else success.
    pub fn result(&self) -> (r: Result<(), String>)
        ensures
            match r {
                Ok(_) => self.failure() is None,
                Err(e) => self.failure() == Some(e@),
            },
    {
        match &self.failure {
            Some(e) => Err(e.clone()),
            None => Ok(()),
        }
    }
}

} // verus!
