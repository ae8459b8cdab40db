//! The life of the process behind its tray icon: the window may come and go,
//! the process stays until the user quits.

use crate::text::same_text;
use vstd::prelude::*;

verus! {

/// The identifier of the menu entry that ends the process.
pub const QUIT_ID: &'static str = "quit";

/// The identifier of the menu entry that hides the window.
pub const HIDE_ID: &'static str = "hide";

/// The exit code of a process that ends because the user asked for it.
pub const QUIT_EXIT_CODE: i32 = 0;

/// Whether the main window is shown.
#[derive(Clone, Copy, Debug, PartialEq, Eq, Structural)]
pub enum WindowState {
    Visible,
    Hidden,
}

/// The process: running, with its window shown or hidden, or gone.
#[derive(Clone, Copy, Debug, PartialEq, Eq, Structural)]
pub enum Lifecycle {
    Running(WindowState),
    Terminated,
}

/// The entries of the tray menu that do something.
#[derive(Clone, Copy, Debug, PartialEq, Eq, Structural)]
pub enum MenuCommand {
    Quit,
    Hide,
}

/// What the host shell reports.
#[derive(Debug)]
pub enum TrayEvent {
    /// The user asked to close the main window.
    CloseRequested,
    /// The tray icon was clicked.
    LeftClick,
    /// The tray icon was double-clicked.
    DoubleClick,
    /// The menu entry with this identifier was chosen.
    MenuItemClick { id: String },
    /// Anything else.
    Other,
}

/// What the host shell is to do in answer to an event.
#[derive(Clone, Copy, Debug, PartialEq, Eq, Structural)]
pub enum TrayAction {
    /// Nothing.
    Nothing,
    /// Hide the main window. Where `keep_open` is set the event was a request
    /// to close the window, and the host must not let the close go through.
    HideWindow { keep_open: bool },
    /// Show the main window.
    ShowWindow,
    /// End the process at once, with this exit code.
    Exit { code: i32 },
}

/// An event as the rules see it: a menu click is the command it names, if
/// it names one.
pub enum Signal {
    CloseRequested,
    Activated,
    Command(MenuCommand),
    Ignored,
}

impl MenuCommand {
    /// The command that a menu identifier names.
    pub open spec fn named(id: Seq<char>) -> Option<MenuCommand> {
        if id == QUIT_ID@ {
            Some(MenuCommand::Quit)
        } else if id == HIDE_ID@ {
            Some(MenuCommand::Hide)
        } else {
            None
        }
    }

    /// The identifier under which the command stands in the menu.
    pub fn id(self) -> (id: &'static str)
        ensures
            id@ == match self {
                MenuCommand::Quit => QUIT_ID@,
                MenuCommand::Hide => HIDE_ID@,
            },
    {
        match self {
            MenuCommand::Quit => QUIT_ID,
            MenuCommand::Hide => HIDE_ID,
        }
    }

    /// The command that a menu identifier names; `None` for an identifier
    /// that names none.
    pub fn from_id(id: &str) -> (command: Option<MenuCommand>)
        ensures
            command == Self::named(id@),
    {
        if same_text(id, QUIT_ID) {
            Some(MenuCommand::Quit)
        } else if same_text(id, HIDE_ID) {
            Some(MenuCommand::Hide)
        } else {
            None
        }
    }
}

impl TrayEvent {
    /// The event as the rules see it.
    pub open spec fn signal(self) -> Signal {
        match self {
            TrayEvent::CloseRequested => Signal::CloseRequested,
            TrayEvent::LeftClick | TrayEvent::DoubleClick => Signal::Activated,
            TrayEvent::MenuItemClick { id } => match MenuCommand::named(id@) {
                Some(command) => Signal::Command(command),
                None => Signal::Ignored,
            },
            TrayEvent::Other => Signal::Ignored,
        }
    }
}

impl Lifecycle {
    /// The state that follows `self` on `signal`. Closing the window hides
    /// it; only the quit command ends the process, and nothing revives it.
    pub open spec fn after(self, signal: Signal) -> Lifecycle {
        match (self, signal) {
            (Lifecycle::Terminated, _) => Lifecycle::Terminated,
            (Lifecycle::Running(_), Signal::CloseRequested) => Lifecycle::Running(
                WindowState::Hidden,
            ),
            (Lifecycle::Running(_), Signal::Activated) => Lifecycle::Running(WindowState::Visible),
            (Lifecycle::Running(_), Signal::Command(MenuCommand::Quit)) => Lifecycle::Terminated,
            (Lifecycle::Running(_), Signal::Command(MenuCommand::Hide)) => Lifecycle::Running(
                WindowState::Hidden,
            ),
            (Lifecycle::Running(window), Signal::Ignored) => Lifecycle::Running(window),
        }
    }

    /// What the host is to do when `signal` arrives in state `self`.
    pub open spec fn answer(self, signal: Signal) -> TrayAction {
        match (self, signal) {
            (Lifecycle::Terminated, _) => TrayAction::Nothing,
            (Lifecycle::Running(_), Signal::CloseRequested) => TrayAction::HideWindow {
                keep_open: true,
            },
            (Lifecycle::Running(_), Signal::Activated) => TrayAction::ShowWindow,
            (Lifecycle::Running(_), Signal::Command(MenuCommand::Quit)) => TrayAction::Exit {
                code: QUIT_EXIT_CODE,
            },
            (Lifecycle::Running(_), Signal::Command(MenuCommand::Hide)) => TrayAction::HideWindow {
                keep_open: false,
            },
            (Lifecycle::Running(_), Signal::Ignored) => TrayAction::Nothing,
        }
    }

    /// The state in which the process starts: running, its window shown.
    pub fn start() -> (state: Lifecycle)
        ensures
            state == Lifecycle::Running(WindowState::Visible),
    {
        Lifecycle::Running(WindowState::Visible)
    }

    /// Takes one event: the state that follows, and what the host is to do.
    pub fn step(self, event: &TrayEvent) -> (next: (Lifecycle, TrayAction))
        ensures
            next.0 == self.after(event.signal()),
            next.1 == self.answer(event.signal()),
    {
        match self {
            Lifecycle::Terminated => (Lifecycle::Terminated, TrayAction::Nothing),
            Lifecycle::Running(window) => match event {
                TrayEvent::CloseRequested => (
                    Lifecycle::Running(WindowState::Hidden),
                    TrayAction::HideWindow { keep_open: true },
                ),
                TrayEvent::LeftClick | TrayEvent::DoubleClick => (
                    Lifecycle::Running(WindowState::Visible),
                    TrayAction::ShowWindow,
                ),
                TrayEvent::MenuItemClick { id } => match MenuCommand::from_id(id.as_str()) {
                    Some(MenuCommand::Quit) => (
                        Lifecycle::Terminated,
                        TrayAction::Exit { code: QUIT_EXIT_CODE },
                    ),
                    Some(MenuCommand::Hide) => (
                        Lifecycle::Running(WindowState::Hidden),
                        TrayAction::HideWindow { keep_open: false },
                    ),
                    None => (Lifecycle::Running(window), TrayAction::Nothing),
                },
                TrayEvent::Other => (Lifecycle::Running(window), TrayAction::Nothing),
            },
        }
    }
}

/// A request to close the window never ends the process: a running process
/// keeps running, with its window hidden, and the host is told to keep the
/// window from closing.
pub proof fn lemma_close_hides(window: WindowState)
    ensures
        Lifecycle::Running(window).after(Signal::CloseRequested) == Lifecycle::Running(
            WindowState::Hidden,
        ),
        Lifecycle::Running(window).answer(Signal::CloseRequested) == (TrayAction::HideWindow {
            keep_open: true,
        }),
{
}

/// Quit ends a running process, at once and with exit code 0, and no other
/// signal ends it.
pub proof fn lemma_only_quit_terminates(window: WindowState, signal: Signal)
    ensures
        Lifecycle::Running(window).after(signal) == Lifecycle::Terminated <==> signal
            == Signal::Command(MenuCommand::Quit),
        Lifecycle::Running(window).answer(signal) is Exit <==> signal == Signal::Command(
            MenuCommand::Quit,
        ),
        Lifecycle::Running(window).answer(Signal::Command(MenuCommand::Quit)) == (TrayAction::Exit {
            code: 0,
        }),
{
}

/// Hide, chosen from the menu, hides the window and leaves the process
/// running.
pub proof fn lemma_hide_keeps_running(window: WindowState)
    ensures
        Lifecycle::Running(window).after(Signal::Command(MenuCommand::Hide)) == Lifecycle::Running(
            WindowState::Hidden,
        ),
        Lifecycle::Running(window).answer(Signal::Command(MenuCommand::Hide))
            == (TrayAction::HideWindow { keep_open: false }),
{
}

/// A click or a double click on the icon brings the window back, from
/// hidden as from visible.
pub proof fn lemma_activation_shows(window: WindowState)
    ensures
        Lifecycle::Running(window).after(Signal::Activated) == Lifecycle::Running(
            WindowState::Visible,
        ),
        Lifecycle::Running(window).answer(Signal::Activated) == TrayAction::ShowWindow,
{
}

/// The state that follows `state` on `signals`, taken one after the other.
pub open spec fn after_all(state: Lifecycle, signals: Seq<Signal>) -> Lifecycle
    decreases signals.len(),
{
    if signals.len() == 0 {
        state
    } else {
        after_all(state, signals.drop_last()).after(signals.last())
    }
}

/// The process outlives its window: whatever is signalled, and however
/// often, a running process has ended exactly if quit was among the signals.
pub proof fn lemma_runs_until_quit(window: WindowState, signals: Seq<Signal>)
    ensures
        after_all(Lifecycle::Running(window), signals) == Lifecycle::Terminated <==> exists|
            i: int,
        |
            0 <= i < signals.len() && signals[i] == Signal::Command(MenuCommand::Quit),
    decreases signals.len(),
{
    if signals.len() > 0 {
        let earlier = signals.drop_last();
        lemma_runs_until_quit(window, earlier);
        if exists|i: int| 0 <= i < earlier.len() && earlier[i] == Signal::Command(MenuCommand::Quit) {
            let at = choose|i: int|
                0 <= i < earlier.len() && earlier[i] == Signal::Command(MenuCommand::Quit);
            assert(signals[at] == Signal::Command(MenuCommand::Quit));
        } else if signals.last() == Signal::Command(MenuCommand::Quit) {
            assert(signals[signals.len() - 1] == Signal::Command(MenuCommand::Quit));
        } else {
            assert forall|i: int| 0 <= i < signals.len() implies signals[i] != Signal::Command(
                MenuCommand::Quit,
            ) by {
                if i < earlier.len() {
                    assert(earlier[i] == signals[i]);
                }
            }
        }
    }
}

/// The two identifiers of the menu name the two commands, each its own.
pub proof fn lemma_menu_identifiers()
    ensures
        MenuCommand::named(QUIT_ID@) == Some(MenuCommand::Quit),
        MenuCommand::named(HIDE_ID@) == Some(MenuCommand::Hide),
{
    reveal_strlit("quit");
    reveal_strlit("hide");
    assert(QUIT_ID@.len() == 4 && HIDE_ID@.len() == 4);
    assert(QUIT_ID@[0] == 'q' && HIDE_ID@[0] == 'h');
}

} // verus!
