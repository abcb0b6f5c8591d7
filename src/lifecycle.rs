use vstd::prelude::*;
use crate::desktop::{Action, WindowKind, WindowOp};
use crate::plan::{ignoring, Step};

verus! {

pub open spec fn startup_steps(start_minimized: bool, main_open: bool) -> Seq<Step> {
    if start_minimized && main_open {
        seq![ignoring(Action::Window(WindowKind::Main, WindowOp::Hide))]
    } else {
        seq![]
    }
}

/// What the shell does to the main window once the tray is set up: a start
/// from autostart hides it at once; any other start leaves it as it is.
pub fn plan_startup(start_minimized: bool, main_open: bool) -> (r: Vec<Step>)
    ensures
        r@ == startup_steps(start_minimized, main_open),
{
    let mut plan: Vec<Step> = Vec::new();
    if start_minimized && main_open {
        plan.push(Step::ignoring(Action::Window(WindowKind::Main, WindowOp::Hide)));
    }
    assert(plan@ =~= startup_steps(start_minimized, main_open));
    plan
}

/// The answer to a request to close the main window.
pub struct CloseResponse {
    /// Whether the framework's own close is cancelled.
    pub prevent_close: bool,
    pub steps: Vec<Step>,
}

pub open spec fn hide_main_steps() -> Seq<Step> {
    seq![ignoring(Action::Window(WindowKind::Main, WindowOp::Hide))]
}

/// Closing the main window hides it to the tray instead.
pub fn main_close_response() -> (r: CloseResponse)
    ensures
        r.prevent_close,
        r.steps@ == hide_main_steps(),
{
    let mut steps: Vec<Step> = Vec::new();
    steps.push(Step::ignoring(Action::Window(WindowKind::Main, WindowOp::Hide)));
    assert(steps@ =~= hide_main_steps());
    CloseResponse { prevent_close: true, steps }
}

} // verus!
