use vstd::prelude::*;
use vstd::string::StringExecFns;
use crate::desktop::{Action, WindowKind, WindowOp};
use crate::plan::{ignoring, Step};

verus! {

/// One entry of the tray menu: its stable id and its label.
pub struct MenuEntry {
    pub id: String,
    pub label: String,
}

/// What a tray menu selection asks for.
#[derive(Clone, Copy, Debug, PartialEq, Eq, Structural)]
pub enum MenuCommand {
    ShowMain,
    Quit,
    Unknown,
}

#[derive(Clone, Copy, Debug, PartialEq, Eq, Structural)]
pub enum MouseButton {
    Left,
    Right,
    Middle,
}

#[derive(Clone, Copy, Debug, PartialEq, Eq, Structural)]
pub enum ButtonState {
    Up,
    Down,
}

/// The id of the tray icon.
pub fn tray_id() -> (r: String)
    ensures
        r@ == "main-tray"@,
{
    String::from_str("main-tray")
}

/// The tray menu: "show" then "quit".
pub fn tray_menu() -> (r: Vec<MenuEntry>)
    ensures
        r@.len() == 2,
        r@[0].id@ == "show"@,
        r@[0].label@ == "Göster"@,
        r@[1].id@ == "quit"@,
        r@[1].label@ == "Çıkış"@,
{
    let mut menu: Vec<MenuEntry> = Vec::new();
    menu.push(MenuEntry { id: String::from_str("show"), label: String::from_str("Göster") });
    menu.push(MenuEntry { id: String::from_str("quit"), label: String::from_str("Çıkış") });
    menu
}

pub open spec fn menu_command_of(id: Seq<char>) -> MenuCommand {
    if id == "show"@ {
        MenuCommand::ShowMain
    } else if id == "quit"@ {
        MenuCommand::Quit
    } else {
        MenuCommand::Unknown
    }
}

/// Reads the id of a selected menu entry.
pub fn menu_command(id: &str) -> (r: MenuCommand)
    ensures
        r == menu_command_of(id@),
{
    let id = String::from_str(id);
    if id == String::from_str("show") {
        MenuCommand::ShowMain
    } else if id == String::from_str("quit") {
        MenuCommand::Quit
    } else {
        MenuCommand::Unknown
    }
}

/// Un-hides, restores and focuses the main window, when it is open.
pub open spec fn reveal_main_steps(main_open: bool) -> Seq<Step> {
    if main_open {
        seq![
            ignoring(Action::Window(WindowKind::Main, WindowOp::Show)),
            ignoring(Action::Window(WindowKind::Main, WindowOp::Unminimize)),
            ignoring(Action::Window(WindowKind::Main, WindowOp::SetFocus)),
        ]
    } else {
        seq![]
    }
}

fn plan_reveal_main(main_open: bool) -> (r: Vec<Step>)
    ensures
        r@ == reveal_main_steps(main_open),
{
    let mut plan: Vec<Step> = Vec::new();
    if main_open {
        plan.push(Step::ignoring(Action::Window(WindowKind::Main, WindowOp::Show)));
        plan.push(Step::ignoring(Action::Window(WindowKind::Main, WindowOp::Unminimize)));
        plan.push(Step::ignoring(Action::Window(WindowKind::Main, WindowOp::SetFocus)));
    }
    assert(plan@ =~= reveal_main_steps(main_open));
    plan
}

pub open spec fn menu_steps(command: MenuCommand, main_open: bool) -> Seq<Step> {
    match command {
        MenuCommand::ShowMain => reveal_main_steps(main_open),
        MenuCommand::Quit => seq![ignoring(Action::Exit(0))],
        MenuCommand::Unknown => seq![],
    }
}

/// What a tray menu selection does.
pub fn plan_menu(command: MenuCommand, main_open: bool) -> (r: Vec<Step>)
    ensures
        r@ == menu_steps(command, main_open),
{
    match command {
        MenuCommand::ShowMain => plan_reveal_main(main_open),
        MenuCommand::Quit => {
            let mut plan: Vec<Step> = Vec::new();
            plan.push(Step::ignoring(Action::Exit(0)));
            assert(plan@ =~= menu_steps(command, main_open));
            plan
        },
        MenuCommand::Unknown => Vec::new(),
    }
}

pub open spec fn tray_click_steps(button: MouseButton, state: ButtonState, main_open: bool) -> Seq<
    Step,
> {
    if button == MouseButton::Left && state == ButtonState::Up {
        reveal_main_steps(main_open)
    } else {
        seq![]
    }
}

/// What a click on the tray icon does: releasing the left button brings the
/// main window back.
pub fn plan_tray_click(button: MouseButton, state: ButtonState, main_open: bool) -> (r: Vec<Step>)
    ensures
        r@ == tray_click_steps(button, state, main_open),
{
    if button == MouseButton::Left && state == ButtonState::Up {
        plan_reveal_main(main_open)
    } else {
        Vec::new()
    }
}

} // verus!
