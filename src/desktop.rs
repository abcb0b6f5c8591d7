use vstd::prelude::*;

verus! {

/// Width of the break popup, in logical units.
pub const POPUP_WIDTH: u32 = 380;

/// Height of the break popup, in logical units.
pub const POPUP_HEIGHT: u32 = 420;

/// The two windows the shell knows, by their role.
#[derive(Clone, Copy, Debug, PartialEq, Eq, Structural)]
pub enum WindowKind {
    Main,
    Popup,
}

/// The state of one open window, as far as the shell touches it.
#[derive(Clone, Copy, Debug, PartialEq, Eq, Structural)]
pub struct Window {
    /// Tells apart two windows that held the same slot one after the other.
    pub instance: u64,
    pub visible: bool,
    pub minimized: bool,
    pub always_on_top: bool,
    pub focused: bool,
    pub attention_requested: bool,
    pub width: u32,
    pub height: u32,
    pub resizable: bool,
    pub decorated: bool,
    pub centered: bool,
}

/// What the shell asks of one window.
#[derive(Clone, Copy, Debug, PartialEq, Eq, Structural)]
pub enum WindowOp {
    Show,
    Hide,
    Unminimize,
    SetFocus,
    SetAlwaysOnTop(bool),
    RequestAttention,
    Close,
}

/// One call the shell makes into the windowing framework or the system.
#[derive(Clone, Copy, Debug, PartialEq, Eq, Structural)]
pub enum Action {
    Window(WindowKind, WindowOp),
    CreatePopup,
    SetAutostart(bool),
    Exit(i32),
}

/// The window popups are created as: fixed size, no frame, over the others.
pub open spec fn fresh_popup(instance: u64) -> Window {
    Window {
        instance,
        visible: true,
        minimized: false,
        always_on_top: true,
        focused: true,
        attention_requested: false,
        width: POPUP_WIDTH,
        height: POPUP_HEIGHT,
        resizable: false,
        decorated: false,
        centered: true,
    }
}

/// What a window operation leaves of a window that stays open.
pub open spec fn window_after(w: Window, op: WindowOp) -> Window {
    match op {
        WindowOp::Show => Window { visible: true, ..w },
        WindowOp::Hide => Window { visible: false, focused: false, ..w },
        WindowOp::Unminimize => Window { minimized: false, ..w },
        WindowOp::SetFocus => Window { focused: true, ..w },
        WindowOp::SetAlwaysOnTop(b) => Window { always_on_top: b, ..w },
        WindowOp::RequestAttention => Window { attention_requested: true, ..w },
        WindowOp::Close => w,
    }
}

/// What a window operation leaves in a window slot.
pub open spec fn slot_after(slot: Option<Window>, op: WindowOp) -> Option<Window> {
    match slot {
        None => None,
        Some(w) => if op == WindowOp::Close {
            None
        } else {
            Some(window_after(w, op))
        },
    }
}

/// The shell's view of the desktop: at most one window of each kind, the
/// autostart registration and, once the process is told to stop, its exit code.
#[derive(Clone, Copy, Debug, PartialEq, Eq, Structural)]
pub struct Desktop {
    pub main: Option<Window>,
    pub popup: Option<Window>,
    pub autostart: bool,
    pub exit_code: Option<i32>,
    /// The instance number the next created window gets.
    pub next_instance: u64,
}

impl Desktop {
    pub open spec fn slot(self, kind: WindowKind) -> Option<Window> {
        match kind {
            WindowKind::Main => self.main,
            WindowKind::Popup => self.popup,
        }
    }

    pub open spec fn with_slot(self, kind: WindowKind, slot: Option<Window>) -> Desktop {
        match kind {
            WindowKind::Main => Desktop { main: slot, ..self },
            WindowKind::Popup => Desktop { popup: slot, ..self },
        }
    }

    /// The desktop after `action` succeeded.
    pub open spec fn applied(self, action: Action) -> Desktop {
        match action {
            Action::Window(kind, op) => self.with_slot(kind, slot_after(self.slot(kind), op)),
            Action::CreatePopup => if self.popup is Some {
                self
            } else {
                Desktop {
                    popup: Some(fresh_popup(self.next_instance)),
                    next_instance: if self.next_instance < u64::MAX {
                        (self.next_instance + 1) as u64
                    } else {
                        self.next_instance
                    },
                    ..self
                }
            },
            Action::SetAutostart(b) => Desktop { autostart: b, ..self },
            Action::Exit(code) => Desktop { exit_code: Some(code), ..self },
        }
    }

    /// The desktop after a close request on `kind`: the window goes unless the
    /// request was prevented.
    pub open spec fn close_requested_spec(self, kind: WindowKind, prevented: bool) -> Desktop {
        if prevented {
            self
        } else {
            self.with_slot(kind, None)
        }
    }

    /// A desktop with the main window open and visible, as the framework
    /// creates it at start.
    pub fn new(width: u32, height: u32) -> (r: Desktop)
        ensures
            r.main == Some(
                Window {
                    instance: 0,
                    visible: true,
                    minimized: false,
                    always_on_top: false,
                    focused: true,
                    attention_requested: false,
                    width,
                    height,
                    resizable: true,
                    decorated: true,
                    centered: true,
                },
            ),
            r.popup is None,
            !r.autostart,
            r.exit_code is None,
            r.next_instance == 1,
    {
        Desktop {
            main: Some(
                Window {
                    instance: 0,
                    visible: true,
                    minimized: false,
                    always_on_top: false,
                    focused: true,
                    attention_requested: false,
                    width,
                    height,
                    resizable: true,
                    decorated: true,
                    centered: true,
                },
            ),
            popup: None,
            autostart: false,
            exit_code: None,
            next_instance: 1,
        }
    }

    /// The window of the given kind, if it is open.
    pub fn window(&self, kind: WindowKind) -> (r: Option<Window>)
        ensures
            r == self.slot(kind),
    {
        match kind {
            WindowKind::Main => self.main,
            WindowKind::Popup => self.popup,
        }
    }

    /// Whether a window of the given kind is open.
    pub fn has_window(&self, kind: WindowKind) -> (r: bool)
        ensures
            r == self.slot(kind) is Some,
    {
        self.window(kind).is_some()
    }

    /// Whether the program is registered to start with the session.
    pub fn is_autostart_enabled(&self) -> (r: bool)
        ensures
            r == self.autostart,
    {
        self.autostart
    }

    /// Records that `action` succeeded.
    pub fn apply(&mut self, action: Action)
        ensures
            *final(self) == old(self).applied(action),
    {
        match action {
            Action::Window(kind, op) => {
                let slot = match self.window(kind) {
                    None => None,
                    Some(w) => match op {
                        WindowOp::Show => Some(Window { visible: true, ..w }),
                        WindowOp::Hide => Some(Window { visible: false, focused: false, ..w }),
                        WindowOp::Unminimize => Some(Window { minimized: false, ..w }),
                        WindowOp::SetFocus => Some(Window { focused: true, ..w }),
                        WindowOp::SetAlwaysOnTop(b) => Some(Window { always_on_top: b, ..w }),
                        WindowOp::RequestAttention => Some(
                            Window { attention_requested: true, ..w },
                        ),
                        WindowOp::Close => None,
                    },
                };
                match kind {
                    WindowKind::Main => self.main = slot,
                    WindowKind::Popup => self.popup = slot,
                }
            },
            Action::CreatePopup => {
                if self.popup.is_none() {
                    self.popup = Some(
                        Window {
                            instance: self.next_instance,
                            visible: true,
                            minimized: false,
                            always_on_top: true,
                            focused: true,
                            attention_requested: false,
                            width: POPUP_WIDTH,
                            height: POPUP_HEIGHT,
                            resizable: false,
                            decorated: false,
                            centered: true,
                        },
                    );
                    if self.next_instance < u64::MAX {
                        self.next_instance = self.next_instance + 1;
                    }
                }
            },
            Action::SetAutostart(b) => self.autostart = b,
            Action::Exit(code) => self.exit_code = Some(code),
        }
    }

    /// Records a close request on `kind`, prevented or not.
    pub fn close_requested(&mut self, kind: WindowKind, prevented: bool)
        ensures
            *final(self) == old(self).close_requested_spec(kind, prevented),
    {
        if !prevented {
            match kind {
                WindowKind::Main => self.main = None,
                WindowKind::Popup => self.popup = None,
            }
        }
    }
}

} // verus!
