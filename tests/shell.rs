use break_reminder::commands::{
    notification_sound_command, plan_close_popup, plan_request_attention, plan_set_always_on_top,
    plan_set_autostart, plan_show_popup, popup_config,
};
use break_reminder::desktop::{Action, Desktop, WindowKind, WindowOp, POPUP_HEIGHT, POPUP_WIDTH};
use break_reminder::greeting::greet;
use break_reminder::launch::{autostart_args, start_minimized};
use break_reminder::lifecycle::{main_close_response, plan_startup};
use break_reminder::plan::{OnError, Step};
use break_reminder::runner::CommandRun;
use break_reminder::tray::{
    menu_command, plan_menu, plan_tray_click, tray_id, tray_menu, ButtonState, MenuCommand,
    MouseButton,
};

fn desktop() -> Desktop {
    Desktop::new(800, 600)
}

fn show_popup(d: &mut Desktop) {
    let plan = plan_show_popup(d.has_window(WindowKind::Popup));
    d.run_plan(&plan);
}

fn run_with(plan: Vec<Step>, outcomes: Vec<Result<(), String>>) -> Result<(), String> {
    let mut run = CommandRun::new(plan);
    let mut outcomes = outcomes.into_iter();
    while run.next_action().is_some() {
        run.record(outcomes.next().unwrap_or(Ok(())));
    }
    run.result()
}

#[test]
fn greet_formats_name() {
    assert_eq!(greet("World"), "Hello, World! You've been greeted from Rust!");
    assert_eq!(greet(""), "Hello, ! You've been greeted from Rust!");
}

#[test]
fn minimized_flag_is_found_among_args() {
    let args = vec!["app".to_string(), "--minimized".to_string()];
    assert!(start_minimized(&args));
    let args = vec!["app".to_string(), "--minimize".to_string(), "-m".to_string()];
    assert!(!start_minimized(&args));
    assert!(!start_minimized(&Vec::new()));
}

#[test]
fn autostart_launches_minimized() {
    let args = autostart_args();
    assert_eq!(args, vec!["--minimized".to_string()]);
    assert!(start_minimized(&args));
}

#[test]
fn set_always_on_top_sets_flag_both_ways() {
    for b in [true, false, true] {
        let mut d = desktop();
        let plan = plan_set_always_on_top(d.has_window(WindowKind::Main), b);
        assert_eq!(plan.len(), 1);
        d.run_plan(&plan);
        assert_eq!(d.window(WindowKind::Main).unwrap().always_on_top, b);
        assert_eq!(run_with(plan, vec![Ok(())]), Ok(()));
    }
}

#[test]
fn set_always_on_top_without_main_does_nothing() {
    assert!(plan_set_always_on_top(false, true).is_empty());
    assert_eq!(run_with(plan_set_always_on_top(false, true), vec![]), Ok(()));
}

#[test]
fn set_always_on_top_failure_is_returned() {
    let plan = plan_set_always_on_top(true, true);
    assert_eq!(run_with(plan, vec![Err("no window".to_string())]), Err("no window".to_string()));
}

#[test]
fn show_popup_creates_one_fixed_popup() {
    let mut d = desktop();
    show_popup(&mut d);
    let p = d.window(WindowKind::Popup).unwrap();
    assert_eq!((p.width, p.height), (380, 420));
    assert_eq!((POPUP_WIDTH, POPUP_HEIGHT), (380, 420));
    assert!(!p.resizable && !p.decorated);
    assert!(p.always_on_top && p.centered && p.focused && p.visible);
    assert_eq!(p.instance, 1);
}

#[test]
fn show_popup_twice_keeps_first_instance() {
    let mut d = desktop();
    show_popup(&mut d);
    let first = d.window(WindowKind::Popup).unwrap();
    let plan = plan_show_popup(true);
    assert!(plan.iter().all(|s| s.action != Action::CreatePopup));
    show_popup(&mut d);
    let second = d.window(WindowKind::Popup).unwrap();
    assert_eq!(first.instance, second.instance);
    assert_eq!(d.next_instance, 2);
}

#[test]
fn show_popup_refocuses_minimized_popup() {
    let mut d = desktop();
    show_popup(&mut d);
    d.apply(Action::Window(WindowKind::Popup, WindowOp::Hide));
    d.popup.as_mut().unwrap().minimized = true;
    show_popup(&mut d);
    let p = d.window(WindowKind::Popup).unwrap();
    assert!(p.visible && p.focused && !p.minimized && p.always_on_top);
}

#[test]
fn show_popup_build_failure_stops_plan() {
    let plan = plan_show_popup(false);
    assert_eq!(plan[0].on_error, OnError::Propagate);
    let mut run = CommandRun::new(plan);
    assert_eq!(run.next_action(), Some(Action::CreatePopup));
    run.record(Err("build failed".to_string()));
    assert_eq!(run.next_action(), None);
    assert_eq!(run.result(), Err("build failed".to_string()));
}

#[test]
fn show_popup_ignores_show_failures() {
    let plan = plan_show_popup(false);
    let r = run_with(plan, vec![Ok(()), Err("show".to_string()), Err("focus".to_string())]);
    assert_eq!(r, Ok(()));
}

#[test]
fn popup_config_values() {
    let c = popup_config();
    assert_eq!(c.label, "popup");
    assert_eq!(c.title, "Mola Zamanı!");
    assert_eq!(c.url, "index.html?popup=true");
    assert_eq!((c.width, c.height), (380, 420));
    assert!(!c.resizable && !c.decorated && c.always_on_top && c.centered && c.focused);
    assert!(!c.skip_taskbar);
}

#[test]
fn close_popup_when_absent_succeeds() {
    let plan = plan_close_popup(false);
    assert!(plan.is_empty());
    let mut d = desktop();
    let before = d;
    d.run_plan(&plan);
    assert_eq!(d, before);
    assert_eq!(run_with(plan, vec![]), Ok(()));
}

#[test]
fn close_popup_closes_it() {
    let mut d = desktop();
    show_popup(&mut d);
    d.run_plan(&plan_close_popup(d.has_window(WindowKind::Popup)));
    assert!(!d.has_window(WindowKind::Popup));
    assert!(d.has_window(WindowKind::Main));
    let r = run_with(plan_close_popup(true), vec![Err("busy".to_string())]);
    assert_eq!(r, Err("busy".to_string()));
}

#[test]
fn request_attention_flags_main() {
    let mut d = desktop();
    d.run_plan(&plan_request_attention(true));
    assert!(d.window(WindowKind::Main).unwrap().attention_requested);
    assert!(plan_request_attention(false).is_empty());
}

#[test]
fn notification_sound_only_on_windows() {
    let c = notification_sound_command(true).unwrap();
    assert_eq!(c.program, "powershell");
    assert_eq!(c.args, vec!["-Command".to_string(), "[System.Media.SystemSounds]::Exclamation.Play()".to_string()]);
    assert!(notification_sound_command(false).is_none());
}

#[test]
fn autostart_round_trip() {
    let mut d = desktop();
    assert!(!d.is_autostart_enabled());
    d.run_plan(&plan_set_autostart(true));
    assert!(d.is_autostart_enabled());
    d.run_plan(&plan_set_autostart(false));
    assert!(!d.is_autostart_enabled());
}

#[test]
fn minimized_start_hides_main() {
    let mut d = desktop();
    d.run_plan(&plan_startup(true, true));
    let w = d.window(WindowKind::Main).unwrap();
    assert!(!w.visible);
    assert!(plan_startup(false, true).is_empty());
    assert!(plan_startup(true, false).is_empty());
}

#[test]
fn close_request_hides_instead_of_closing() {
    let mut d = desktop();
    let response = main_close_response();
    assert!(response.prevent_close);
    d.close_requested(WindowKind::Main, response.prevent_close);
    d.run_plan(&response.steps);
    let w = d.window(WindowKind::Main).unwrap();
    assert!(!w.visible);
    assert_eq!(w.instance, 0);
    assert_eq!(d.exit_code, None);
    d.run_plan(&plan_menu(MenuCommand::ShowMain, true));
    assert!(d.window(WindowKind::Main).unwrap().visible);
}

#[test]
fn unprevented_close_removes_window() {
    let mut d = desktop();
    d.close_requested(WindowKind::Main, false);
    assert!(!d.has_window(WindowKind::Main));
}

#[test]
fn quit_exits_with_zero_in_any_state() {
    for hidden in [false, true] {
        let mut d = desktop();
        if hidden {
            d.apply(Action::Window(WindowKind::Main, WindowOp::Hide));
        }
        d.run_plan(&plan_menu(menu_command("quit"), d.has_window(WindowKind::Main)));
        assert_eq!(d.exit_code, Some(0));
    }
}

#[test]
fn menu_ids_are_read() {
    assert_eq!(menu_command("show"), MenuCommand::ShowMain);
    assert_eq!(menu_command("quit"), MenuCommand::Quit);
    assert_eq!(menu_command("Quit"), MenuCommand::Unknown);
    assert!(plan_menu(MenuCommand::Unknown, true).is_empty());
    assert!(plan_menu(MenuCommand::ShowMain, false).is_empty());
}

#[test]
fn tray_menu_entries() {
    let menu = tray_menu();
    assert_eq!(menu.len(), 2);
    assert_eq!((menu[0].id.as_str(), menu[0].label.as_str()), ("show", "Göster"));
    assert_eq!((menu[1].id.as_str(), menu[1].label.as_str()), ("quit", "Çıkış"));
    assert_eq!(tray_id(), "main-tray");
}

#[test]
fn tray_left_release_reveals_main() {
    let mut d = desktop();
    d.apply(Action::Window(WindowKind::Main, WindowOp::Hide));
    assert!(plan_tray_click(MouseButton::Left, ButtonState::Down, true).is_empty());
    assert!(plan_tray_click(MouseButton::Right, ButtonState::Up, true).is_empty());
    d.run_plan(&plan_tray_click(MouseButton::Left, ButtonState::Up, true));
    let w = d.window(WindowKind::Main).unwrap();
    assert!(w.visible && w.focused && !w.minimized);
}
