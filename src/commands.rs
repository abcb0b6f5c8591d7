use vstd::prelude::*;
use vstd::string::StringExecFns;
use crate::desktop::{Action, WindowKind, WindowOp, POPUP_HEIGHT, POPUP_WIDTH};
use crate::plan::{ignoring, propagating, Step};

verus! {

/// How the popup window is built.
pub struct PopupConfig {
    pub label: String,
    pub title: String,
    pub url: String,
    pub width: u32,
    pub height: u32,
    pub resizable: bool,
    pub decorated: bool,
    pub always_on_top: bool,
    pub centered: bool,
    pub focused: bool,
    pub skip_taskbar: bool,
}

/// The popup's settings: fixed size, no frame, always on top, centred, focused.
pub fn popup_config() -> (r: PopupConfig)
    ensures
        r.label@ == "popup"@,
        r.title@ == "Mola Zamanı!"@,
        r.url@ == "index.html?popup=true"@,
        r.width == POPUP_WIDTH,
        r.height == POPUP_HEIGHT,
        !r.resizable,
        !r.decorated,
        r.always_on_top,
        r.centered,
        r.focused,
        !r.skip_taskbar,
{
    PopupConfig {
        label: String::from_str("popup"),
        title: String::from_str("Mola Zamanı!"),
        url: String::from_str("index.html?popup=true"),
        width: POPUP_WIDTH,
        height: POPUP_HEIGHT,
        resizable: false,
        decorated: false,
        always_on_top: true,
        centered: true,
        focused: true,
        skip_taskbar: false,
    }
}

pub open spec fn set_always_on_top_steps(main_open: bool, on_top: bool) -> Seq<Step> {
    if main_open {
        seq![propagating(Action::Window(WindowKind::Main, WindowOp::SetAlwaysOnTop(on_top)))]
    } else {
        seq![]
    }
}

/// Sets the main window's always-on-top flag; nothing when it is not open.
pub fn plan_set_always_on_top(main_open: bool, on_top: bool) -> (r: Vec<Step>)
    ensures
        r@ == set_always_on_top_steps(main_open, on_top),
{
    let mut plan: Vec<Step> = Vec::new();
    if main_open {
        plan.push(
            Step::propagating(Action::Window(WindowKind::Main, WindowOp::SetAlwaysOnTop(on_top))),
        );
    }
    plan
}

pub open spec fn show_popup_steps(popup_open: bool) -> Seq<Step> {
    if popup_open {
        seq![
            ignoring(Action::Window(WindowKind::Popup, WindowOp::SetAlwaysOnTop(true))),
            ignoring(Action::Window(WindowKind::Popup, WindowOp::Unminimize)),
            ignoring(Action::Window(WindowKind::Popup, WindowOp::Show)),
            ignoring(Action::Window(WindowKind::Popup, WindowOp::SetFocus)),
        ]
    } else {
        seq![
            propagating(Action::CreatePopup),
            ignoring(Action::Window(WindowKind::Popup, WindowOp::Show)),
            ignoring(Action::Window(WindowKind::Popup, WindowOp::SetFocus)),
        ]
    }
}

/// Brings the popup forward: the open one if there is one, else a new one.
pub fn plan_show_popup(popup_open: bool) -> (r: Vec<Step>)
    ensures
        r@ == show_popup_steps(popup_open),
{
    let mut plan: Vec<Step> = Vec::new();
    if popup_open {
        plan.push(
            Step::ignoring(Action::Window(WindowKind::Popup, WindowOp::SetAlwaysOnTop(true))),
        );
        plan.push(Step::ignoring(Action::Window(WindowKind::Popup, WindowOp::Unminimize)));
    } else {
        plan.push(Step::propagating(Action::CreatePopup));
    }
    plan.push(Step::ignoring(Action::Window(WindowKind::Popup, WindowOp::Show)));
    plan.push(Step::ignoring(Action::Window(WindowKind::Popup, WindowOp::SetFocus)));
    assert(plan@ =~= show_popup_steps(popup_open));
    plan
}

pub open spec fn close_popup_steps(popup_open: bool) -> Seq<Step> {
    if popup_open {
        seq![propagating(Action::Window(WindowKind::Popup, WindowOp::Close))]
    } else {
        seq![]
    }
}

/// Closes the popup; nothing when it is not open.
pub fn plan_close_popup(popup_open: bool) -> (r: Vec<Step>)
    ensures
        r@ == close_popup_steps(popup_open),
{
    let mut plan: Vec<Step> = Vec::new();
    if popup_open {
        plan.push(Step::propagating(Action::Window(WindowKind::Popup, WindowOp::Close)));
    }
    assert(plan@ =~= close_popup_steps(popup_open));
    plan
}

pub open spec fn request_attention_steps(main_open: bool) -> Seq<Step> {
    if main_open {
        seq![propagating(Action::Window(WindowKind::Main, WindowOp::RequestAttention))]
    } else {
        seq![]
    }
}

/// Asks the system to flag the main window; nothing when it is not open.
pub fn plan_request_attention(main_open: bool) -> (r: Vec<Step>)
    ensures
        r@ == request_attention_steps(main_open),
{
    let mut plan: Vec<Step> = Vec::new();
    if main_open {
        plan.push(Step::propagating(Action::Window(WindowKind::Main, WindowOp::RequestAttention)));
    }
    assert(plan@ =~= request_attention_steps(main_open));
    plan
}

pub open spec fn set_autostart_steps(enabled: bool) -> Seq<Step> {
    seq![propagating(Action::SetAutostart(enabled))]
}

/// Registers or unregisters the program with the system's autostart.
pub fn plan_set_autostart(enabled: bool) -> (r: Vec<Step>)
    ensures
        r@ == set_autostart_steps(enabled),
{
    let mut plan: Vec<Step> = Vec::new();
    plan.push(Step::propagating(Action::SetAutostart(enabled)));
    assert(plan@ =~= set_autostart_steps(enabled));
    plan
}

/// A program to start and leave running, with its arguments.
pub struct ShellCommand {
    pub program: String,
    pub args: Vec<String>,
}

/// The command that plays the system's exclamation sound, where the platform
/// has one (Windows); none elsewhere.
pub fn notification_sound_command(on_windows: bool) -> (r: Option<ShellCommand>)
    ensures
        r is Some <==> on_windows,
        r matches Some(c) ==> {
            &&& c.program@ == "powershell"@
            &&& c.args@.len() == 2
            &&& c.args@[0]@ == "-Command"@
            &&& c.args@[1]@ == "[System.Media.SystemSounds]::Exclamation.Play()"@
        },
{
    if on_windows {
        let mut args: Vec<String> = Vec::new();
        args.push(String::from_str("-Command"));
        args.push(String::from_str("[System.Media.SystemSounds]::Exclamation.Play()"));
        Some(ShellCommand { program: String::from_str("powershell"), args })
    } else {
        None
    }
}

} // verus!
