//! Decisions of the shell controller: what a tray action, a reveal or a
//! close request does to the window, and the answers to the requests that
//! the embedded page may make.
//!
//! The shell performs each window operation on its own. One that fails is
//! reported and the next is still performed.

use crate::pattern::same_text;
use vstd::prelude::*;
use vstd::string::*;

verus! {

/// An entry of the tray menu.
#[derive(Clone, Copy, Debug, PartialEq, Eq, Structural)]
pub enum TrayAction {
    /// Bring the window to the front and focus it.
    Show,
    /// Take the window off the screen; the process goes on.
    Hide,
    /// End the process.
    Quit,
}

/// Something that happened to the shell.
#[derive(Clone, Copy, Debug, PartialEq, Eq, Structural)]
pub enum ShellEvent {
    /// The hidden window is to be revealed: the reveal delay after startup
    /// has passed, or someone asked for the window.
    Reveal,
    /// An entry of the tray menu was chosen.
    Tray(TrayAction),
    /// The window's own close control was used.
    CloseRequested,
}

/// One operation on the window or the process.
#[derive(Clone, Copy, Debug, PartialEq, Eq, Structural)]
pub enum WindowOp {
    /// Put the window on the screen.
    Show,
    /// Give the window the focus.
    Focus,
    /// Take the window off the screen.
    Hide,
    /// Refuse the pending close request.
    KeepOpen,
    /// End the process.
    Exit,
}

/// The operations that answer `event`, in the order in which they are
/// performed. `tray` says whether this shell has a tray icon: with one, the
/// close control hides the window; without one, the close request is left to
/// take its native course.
pub open spec fn window_ops(event: ShellEvent, tray: bool) -> Seq<WindowOp> {
    match event {
        ShellEvent::Reveal => seq![WindowOp::Show],
        ShellEvent::Tray(TrayAction::Show) => seq![WindowOp::Show, WindowOp::Focus],
        ShellEvent::Tray(TrayAction::Hide) => seq![WindowOp::Hide],
        ShellEvent::Tray(TrayAction::Quit) => seq![WindowOp::Exit],
        ShellEvent::CloseRequested => if tray {
            seq![WindowOp::KeepOpen, WindowOp::Hide]
        } else {
            Seq::empty()
        },
    }
}

/// The operations that answer `event`; see [`window_ops`].
pub fn on_event(event: ShellEvent, tray: bool) -> (ops: Vec<WindowOp>)
    ensures
        ops@ == window_ops(event, tray),
{
    let mut ops: Vec<WindowOp> = Vec::new();
    match event {
        ShellEvent::Reveal => {
            ops.push(WindowOp::Show);
        },
        ShellEvent::Tray(TrayAction::Show) => {
            ops.push(WindowOp::Show);
            ops.push(WindowOp::Focus);
        },
        ShellEvent::Tray(TrayAction::Hide) => {
            ops.push(WindowOp::Hide);
        },
        ShellEvent::Tray(TrayAction::Quit) => {
            ops.push(WindowOp::Exit);
        },
        ShellEvent::CloseRequested => {
            if tray {
                ops.push(WindowOp::KeepOpen);
                ops.push(WindowOp::Hide);
            }
        },
    }
    ops
}

/// The tray menu: its three entries from top to bottom.
pub fn tray_menu() -> (menu: Vec<TrayAction>)
    ensures
        menu@ == seq![TrayAction::Show, TrayAction::Hide, TrayAction::Quit],
{
    let mut menu: Vec<TrayAction> = Vec::new();
    menu.push(TrayAction::Show);
    menu.push(TrayAction::Hide);
    menu.push(TrayAction::Quit);
    menu
}

/// The identifier under which a tray entry is registered.
pub open spec fn tray_id(action: TrayAction) -> Seq<char> {
    match action {
        TrayAction::Show => "show"@,
        TrayAction::Hide => "hide"@,
        TrayAction::Quit => "quit"@,
    }
}

/// The text that a tray entry shows.
pub open spec fn tray_label(action: TrayAction) -> Seq<char> {
    match action {
        TrayAction::Show => "Show"@,
        TrayAction::Hide => "Hide"@,
        TrayAction::Quit => "Quit"@,
    }
}

/// The tray entry registered under `id`, if there is one.
pub open spec fn tray_action_of(id: Seq<char>) -> Option<TrayAction> {
    if id == tray_id(TrayAction::Show) {
        Some(TrayAction::Show)
    } else if id == tray_id(TrayAction::Hide) {
        Some(TrayAction::Hide)
    } else if id == tray_id(TrayAction::Quit) {
        Some(TrayAction::Quit)
    } else {
        None
    }
}

impl TrayAction {
    /// The identifier under which this entry is registered.
    pub fn id(self) -> (id: &'static str)
        ensures
            id@ == tray_id(self),
    {
        match self {
            TrayAction::Show => "show",
            TrayAction::Hide => "hide",
            TrayAction::Quit => "quit",
        }
    }

    /// The text that this entry shows.
    pub fn label(self) -> (label: &'static str)
        ensures
            label@ == tray_label(self),
    {
        match self {
            TrayAction::Show => "Show",
            TrayAction::Hide => "Hide",
            TrayAction::Quit => "Quit",
        }
    }

    /// The entry registered under `id`; `None` for any other text.
    pub fn from_id(id: &str) -> (action: Option<TrayAction>)
        ensures
            action == tray_action_of(id@),
    {
        if same_text(id, "show") {
            Some(TrayAction::Show)
        } else if same_text(id, "hide") {
            Some(TrayAction::Hide)
        } else if same_text(id, "quit") {
            Some(TrayAction::Quit)
        } else {
            None
        }
    }
}

/// Nothing ends the process but the tray's `Quit`: neither hiding the
/// window nor the close control does.
pub proof fn lemma_only_quit_exits(event: ShellEvent, tray: bool)
    ensures
        window_ops(event, tray).contains(WindowOp::Exit) <==> event == ShellEvent::Tray(
            TrayAction::Quit,
        ),
{
    let ops = window_ops(event, tray);
    if event == ShellEvent::Tray(TrayAction::Quit) {
        assert(ops[0] == WindowOp::Exit);
    }
}

/// With a tray icon the close control keeps the window open and hides it;
/// without one it is answered with no operation at all.
pub proof fn lemma_close_hides_or_is_native(tray: bool)
    ensures
        tray ==> window_ops(ShellEvent::CloseRequested, tray) == seq![
            WindowOp::KeepOpen,
            WindowOp::Hide,
        ],
        !tray ==> window_ops(ShellEvent::CloseRequested, tray).len() == 0,
{
}

/// Every tray entry is found again under its own identifier, so no choice
/// in the menu is ever left without an action.
pub proof fn lemma_tray_id_round_trip(action: TrayAction)
    ensures
        tray_action_of(tray_id(action)) == Some(action),
{
    reveal_strlit("show");
    reveal_strlit("hide");
    reveal_strlit("quit");
    assert("show"@[0] != "hide"@[0]);
    assert("show"@[0] != "quit"@[0]);
    assert("hide"@[0] != "quit"@[0]);
}

/// The text that acknowledges a reported URL.
pub open spec fn url_received(url: Seq<char>) -> Seq<char> {
    "URL received: "@ + url
}

/// The text that acknowledges a URL set as the current one.
pub open spec fn current_url_set(url: Seq<char>) -> Seq<char> {
    "Current URL set to: "@ + url
}

/// Acknowledges a URL that the page reports. Nothing else happens: the
/// report does not navigate.
pub fn send_url(url: &str) -> (ack: String)
    ensures
        ack@ == url_received(url@),
{
    let mut ack = String::from_str("URL received: ");
    ack.append(url);
    ack
}

/// Acknowledges a URL that the page sets as the current one. Nothing else
/// happens: the report does not navigate.
pub fn set_current_url(url: &str) -> (ack: String)
    ensures
        ack@ == current_url_set(url@),
{
    let mut ack = String::from_str("Current URL set to: ");
    ack.append(url);
    ack
}

/// The name of the event that asks the page to go to the assistant. The
/// shell emits it, with no payload, when the page's request arrives.
pub fn go_to_assistant() -> (event: &'static str)
    ensures
        event@ == "go-to-assistant"@,
{
    "go-to-assistant"
}

} // verus!
