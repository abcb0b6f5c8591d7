use vstd::prelude::*;
use crate::commands::{close_popup_steps, set_always_on_top_steps, set_autostart_steps, show_popup_steps};
use crate::desktop::{fresh_popup, Desktop, Window, WindowKind};
use crate::lifecycle::{hide_main_steps, startup_steps};
use crate::plan::{run, Step};
use crate::tray::{menu_steps, reveal_main_steps, MenuCommand};

verus! {

/// Running a plan with one more step applies that step last.
pub proof fn lemma_run_push(d: Desktop, steps: Seq<Step>, step: Step)
    ensures
        run(d, steps.push(step)) == run(d, steps).applied(step.action),
{
    assert(steps.push(step).drop_last() =~= steps);
}

/// With the main window open, setting its always-on-top flag to `b` leaves
/// the flag equal to `b` and the window otherwise as it was.
pub proof fn lemma_set_always_on_top(d: Desktop, b: bool)
    requires
        d.main is Some,
    ensures
        run(d, set_always_on_top_steps(true, b)).main == Some(
            Window { always_on_top: b, ..d.main.unwrap() },
        ),
        run(d, set_always_on_top_steps(true, b)).popup == d.popup,
{
    lemma_run_push(d, seq![], set_always_on_top_steps(true, b)[0]);
    assert(seq![].push(set_always_on_top_steps(true, b)[0]) =~= set_always_on_top_steps(true, b));
}

/// Showing the popup when none is open opens exactly one, of fixed size,
/// without frame or resizing, always on top, centred, visible and focused.
pub proof fn lemma_show_popup_creates(d: Desktop)
    requires
        d.popup is None,
    ensures
        run(d, show_popup_steps(false)).popup == Some(fresh_popup(d.next_instance)),
        run(d, show_popup_steps(false)).main == d.main,
{
    let s = show_popup_steps(false);
    lemma_run_push(d, seq![], s[0]);
    lemma_run_push(d, seq![s[0]], s[1]);
    lemma_run_push(d, seq![s[0], s[1]], s[2]);
    assert(seq![s[0]] =~= seq![].push(s[0]));
    assert(seq![s[0], s[1]] =~= seq![s[0]].push(s[1]));
    assert(s =~= seq![s[0], s[1]].push(s[2]));
}

/// Showing the popup when it is open keeps that same window, brought forward.
pub proof fn lemma_show_popup_reuses(d: Desktop)
    requires
        d.popup is Some,
    ensures
        run(d, show_popup_steps(true)).popup is Some,
        run(d, show_popup_steps(true)).popup.unwrap().instance == d.popup.unwrap().instance,
        run(d, show_popup_steps(true)).popup.unwrap().visible,
        run(d, show_popup_steps(true)).popup.unwrap().focused,
        run(d, show_popup_steps(true)).popup.unwrap().always_on_top,
        !run(d, show_popup_steps(true)).popup.unwrap().minimized,
        run(d, show_popup_steps(true)).next_instance == d.next_instance,
        run(d, show_popup_steps(true)).main == d.main,
{
    let s = show_popup_steps(true);
    lemma_run_push(d, seq![], s[0]);
    lemma_run_push(d, seq![s[0]], s[1]);
    lemma_run_push(d, seq![s[0], s[1]], s[2]);
    lemma_run_push(d, seq![s[0], s[1], s[2]], s[3]);
    assert(seq![s[0]] =~= seq![].push(s[0]));
    assert(seq![s[0], s[1]] =~= seq![s[0]].push(s[1]));
    assert(seq![s[0], s[1], s[2]] =~= seq![s[0], s[1]].push(s[2]));
    assert(s =~= seq![s[0], s[1], s[2]].push(s[3]));
}

/// Showing the popup twice in a row leaves one popup, the one the first
/// call showed, and creates no other.
pub proof fn lemma_show_popup_twice(d: Desktop)
    ensures
        ({
            let d1 = run(d, show_popup_steps(d.popup is Some));
            let d2 = run(d1, show_popup_steps(d1.popup is Some));
            &&& d1.popup is Some
            &&& d2.popup is Some
            &&& d2.popup.unwrap().instance == d1.popup.unwrap().instance
            &&& d2.next_instance == d1.next_instance
        }),
{
    if d.popup is Some {
        lemma_show_popup_reuses(d);
    } else {
        lemma_show_popup_creates(d);
    }
    let d1 = run(d, show_popup_steps(d.popup is Some));
    lemma_show_popup_reuses(d1);
}

/// Closing the popup when none is open makes no call at all, so it cannot
/// fail, and changes nothing.
pub proof fn lemma_close_absent_popup(d: Desktop)
    ensures
        close_popup_steps(false).len() == 0,
        run(d, close_popup_steps(false)) == d,
{
}

/// A start with the minimized flag hides the main window.
pub proof fn lemma_start_minimized_hides(d: Desktop)
    requires
        d.main is Some,
    ensures
        run(d, startup_steps(true, true)).main is Some,
        !run(d, startup_steps(true, true)).main.unwrap().visible,
{
    lemma_run_push(d, seq![], startup_steps(true, true)[0]);
    assert(seq![].push(startup_steps(true, true)[0]) =~= startup_steps(true, true));
}

/// A close request on the main window, prevented and answered by hiding it,
/// keeps the process running and the window open but hidden; bringing it
/// back from the tray then shows it again.
pub proof fn lemma_close_hides_main(d: Desktop)
    requires
        d.main is Some,
        d.exit_code is None,
    ensures
        ({
            let hidden = run(d.close_requested_spec(WindowKind::Main, true), hide_main_steps());
            let shown = run(hidden, reveal_main_steps(true));
            &&& hidden.exit_code is None
            &&& hidden.main is Some
            &&& hidden.main.unwrap().instance == d.main.unwrap().instance
            &&& !hidden.main.unwrap().visible
            &&& shown.main is Some
            &&& shown.main.unwrap().instance == d.main.unwrap().instance
            &&& shown.main.unwrap().visible
            &&& shown.main.unwrap().focused
        }),
{
    let d0 = d.close_requested_spec(WindowKind::Main, true);
    let h = hide_main_steps();
    lemma_run_push(d0, seq![], h[0]);
    assert(seq![].push(h[0]) =~= h);
    let hidden = run(d0, h);
    let s = reveal_main_steps(true);
    lemma_run_push(hidden, seq![], s[0]);
    lemma_run_push(hidden, seq![s[0]], s[1]);
    lemma_run_push(hidden, seq![s[0], s[1]], s[2]);
    assert(seq![s[0]] =~= seq![].push(s[0]));
    assert(seq![s[0], s[1]] =~= seq![s[0]].push(s[1]));
    assert(s =~= seq![s[0], s[1]].push(s[2]));
}

/// Quitting from the tray menu ends the process with exit code 0, whatever
/// the windows show.
pub proof fn lemma_quit_exits_zero(d: Desktop, main_open: bool)
    ensures
        run(d, menu_steps(MenuCommand::Quit, main_open)).exit_code == Some(0i32),
{
    let s = menu_steps(MenuCommand::Quit, main_open);
    lemma_run_push(d, seq![], s[0]);
    assert(seq![].push(s[0]) =~= s);
}

/// After autostart is set to `enabled`, it reads back as `enabled`.
pub proof fn lemma_autostart_round_trip(d: Desktop, enabled: bool)
    ensures
        run(d, set_autostart_steps(enabled)).autostart == enabled,
{
    let s = set_autostart_steps(enabled);
    lemma_run_push(d, seq![], s[0]);
    assert(seq![].push(s[0]) =~= s);
}

} // verus!
