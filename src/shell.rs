use vstd::prelude::*;

use crate::tray::{MenuId, MouseButton, menu_for_id, menu_items, menu_spec};
use crate::window::{ManagedWindow, Position, Size, Visibility, initial_placement, initial_position,
    window_for_label};

verus! {

/// Exit code of the process when the user quits from the tray menu.
pub const EXIT_SUCCESS: i32 = 0;

/// What the controller is configured to drive.
#[derive(Clone, Copy, Debug, PartialEq, Eq, Structural)]
pub struct Capabilities {
    /// A tray icon with a menu is installed.
    pub tray: bool,
    /// A secondary settings window exists and has a menu item.
    pub settings_window: bool,
}

/// An event that the host reports to the controller.
#[derive(Clone, Copy, Debug, PartialEq, Eq, Structural)]
pub enum ShellEvent {
    /// The user asked to close a window; `None` for a window this controller
    /// does not manage.
    CloseRequested(Option<ManagedWindow>),
    /// A tray menu item was selected; `None` for an unknown identifier.
    MenuSelected(Option<MenuId>),
    /// The tray icon was clicked with a button.
    TrayClicked(MouseButton),
    /// Any other tray icon event (hover, move, double click).
    TrayOther,
}

/// A command that the controller issues to the host.
#[derive(Clone, Copy, Debug, PartialEq, Eq, Structural)]
pub enum Command {
    Show(ManagedWindow),
    Hide(ManagedWindow),
    Focus(ManagedWindow),
    /// Cancels the pending close of the window; the process goes on.
    PreventClose,
    SetPosition(ManagedWindow, Position),
    /// Ends the process with this exit code.
    Exit(i32),
}

/// The controller's model of the windows.
#[derive(Clone, Copy, Debug, PartialEq, Eq, Structural)]
pub struct Shell {
    pub capabilities: Capabilities,
    pub main: Visibility,
    pub settings: Visibility,
}

/// Whether an event shows the main window when hidden and hides it when
/// shown: the toggle item of the menu, or a primary click on the tray icon.
pub open spec fn is_toggle(e: ShellEvent) -> bool {
    e == ShellEvent::MenuSelected(Some(MenuId::Toggle)) || e == ShellEvent::TrayClicked(
        MouseButton::Left,
    )
}

/// The model after the controller handles an event.
pub open spec fn next_state(s: Shell, e: ShellEvent) -> Shell {
    if is_toggle(e) {
        Shell { main: s.main.flipped(), ..s }
    } else {
        match e {
            ShellEvent::CloseRequested(Some(ManagedWindow::Main)) => Shell {
                main: Visibility::Hidden,
                ..s
            },
            ShellEvent::CloseRequested(Some(ManagedWindow::Settings)) => Shell {
                settings: Visibility::Hidden,
                ..s
            },
            ShellEvent::MenuSelected(Some(MenuId::Settings)) => if s.capabilities.settings_window {
                Shell { settings: Visibility::Visible, ..s }
            } else {
                s
            },
            _ => s,
        }
    }
}

/// The commands that show the main window when it is hidden, and hide it
/// when it is shown.
pub open spec fn toggle_commands(main: Visibility) -> Seq<Command> {
    match main {
        Visibility::Visible => seq![Command::Hide(ManagedWindow::Main)],
        Visibility::Hidden => seq![Command::Show(ManagedWindow::Main)],
    }
}

/// The commands that the controller issues for an event, in order.
pub open spec fn reaction(s: Shell, e: ShellEvent) -> Seq<Command> {
    if is_toggle(e) {
        toggle_commands(s.main)
    } else {
        match e {
            ShellEvent::CloseRequested(Some(ManagedWindow::Main)) => seq![
                Command::Hide(ManagedWindow::Main),
                Command::PreventClose,
            ],
            ShellEvent::MenuSelected(Some(MenuId::Settings)) => if s.capabilities.settings_window {
                seq![
                    Command::Show(ManagedWindow::Settings),
                    Command::Focus(ManagedWindow::Settings),
                ]
            } else {
                seq![]
            },
            ShellEvent::MenuSelected(Some(MenuId::Quit)) => seq![Command::Exit(EXIT_SUCCESS)],
            _ => seq![],
        }
    }
}

/// The model after a sequence of events, handled in order.
pub open spec fn run(s: Shell, events: Seq<ShellEvent>) -> Shell
    decreases events.len(),
{
    if events.len() == 0 {
        s
    } else {
        next_state(run(s, events.drop_last()), events.last())
    }
}

/// The commands issued at startup: the main window moves to the bottom-right
/// corner of the primary monitor when both sizes are known, else nothing.
pub open spec fn startup_spec(monitor: Option<Size>, window: Option<Size>) -> Seq<Command> {
    match initial_placement(monitor, window) {
        Some(p) => seq![Command::SetPosition(ManagedWindow::Main, p)],
        None => seq![],
    }
}

impl Shell {
    /// The controller at startup: the main window is shown, the settings
    /// window is not.
    pub fn new(capabilities: Capabilities) -> (r: Shell)
        ensures
            r.capabilities == capabilities,
            r.main == Visibility::Visible,
            r.settings == Visibility::Hidden,
    {
        Shell { capabilities, main: Visibility::Visible, settings: Visibility::Hidden }
    }

    /// The items of the tray menu; none without a tray.
    pub fn tray_menu(&self) -> (r: Vec<MenuId>)
        ensures
            r@ == (if self.capabilities.tray {
                menu_spec(self.capabilities.settings_window)
            } else {
                seq![]
            }),
    {
        if self.capabilities.tray {
            menu_items(self.capabilities.settings_window)
        } else {
            Vec::new()
        }
    }

    /// Takes the main window's visibility from what the host reports; a
    /// failed query counts as hidden.
    pub fn observe_main(&mut self, reported: Option<bool>)
        ensures
            *final(self) == (Shell { main: Visibility::reported_spec(reported), ..*old(self) }),
    {
        self.main = Visibility::from_report(reported);
    }

    /// Handles one event: updates the model and returns the commands for the
    /// host, in the order they are to be carried out.
    pub fn handle(&mut self, e: ShellEvent) -> (r: Vec<Command>)
        ensures
            *final(self) == next_state(*old(self), e),
            r@ == reaction(*old(self), e),
    {
        match e {
            ShellEvent::MenuSelected(Some(MenuId::Toggle))
            | ShellEvent::TrayClicked(MouseButton::Left) => {
                let cmd = match self.main {
                    Visibility::Visible => Command::Hide(ManagedWindow::Main),
                    Visibility::Hidden => Command::Show(ManagedWindow::Main),
                };
                self.main = self.main.flip();
                vec![cmd]
            },
            ShellEvent::CloseRequested(Some(ManagedWindow::Main)) => {
                self.main = Visibility::Hidden;
                vec![Command::Hide(ManagedWindow::Main), Command::PreventClose]
            },
            ShellEvent::CloseRequested(Some(ManagedWindow::Settings)) => {
                self.settings = Visibility::Hidden;
                Vec::new()
            },
            ShellEvent::MenuSelected(Some(MenuId::Settings)) => {
                if self.capabilities.settings_window {
                    self.settings = Visibility::Visible;
                    vec![
                        Command::Show(ManagedWindow::Settings),
                        Command::Focus(ManagedWindow::Settings),
                    ]
                } else {
                    Vec::new()
                }
            },
            ShellEvent::MenuSelected(Some(MenuId::Quit)) => vec![Command::Exit(EXIT_SUCCESS)],
            _ => Vec::new(),
        }
    }

    /// Handles a close request on the window with this host label.
    pub fn on_close_requested(&mut self, label: &str) -> (r: Vec<Command>)
        ensures
            *final(self) == next_state(
                *old(self),
                ShellEvent::CloseRequested(window_for_label(label@)),
            ),
            r@ == reaction(*old(self), ShellEvent::CloseRequested(window_for_label(label@))),
    {
        let w = ManagedWindow::from_label(label);
        self.handle(ShellEvent::CloseRequested(w))
    }

    /// Handles the selection of the tray menu item with this identifier.
    pub fn on_menu_event(&mut self, id: &str) -> (r: Vec<Command>)
        ensures
            *final(self) == next_state(*old(self), ShellEvent::MenuSelected(menu_for_id(id@))),
            r@ == reaction(*old(self), ShellEvent::MenuSelected(menu_for_id(id@))),
    {
        let m = MenuId::from_id(id);
        self.handle(ShellEvent::MenuSelected(m))
    }

    /// The commands to issue once the tray is installed, from the sizes of
    /// the primary monitor and of the main window that the host could report.
    pub fn startup_commands(monitor: Option<Size>, window: Option<Size>) -> (r: Vec<Command>)
        ensures
            r@ == startup_spec(monitor, window),
    {
        match initial_position(monitor, window) {
            Some(p) => vec![Command::SetPosition(ManagedWindow::Main, p)],
            None => Vec::new(),
        }
    }
}

/// A close request on the main window, in any state, hides the main window
/// and cancels the close: nothing else changes and the process does not end.
pub proof fn close_request_hides_main(s: Shell)
    ensures
        next_state(s, ShellEvent::CloseRequested(Some(ManagedWindow::Main))) == (Shell {
            main: Visibility::Hidden,
            ..s
        }),
        reaction(s, ShellEvent::CloseRequested(Some(ManagedWindow::Main))) == seq![
            Command::Hide(ManagedWindow::Main),
            Command::PreventClose,
        ],
        forall|code: i32|
            !reaction(s, ShellEvent::CloseRequested(Some(ManagedWindow::Main))).contains(
                Command::Exit(code),
            ),
{
    let r = reaction(s, ShellEvent::CloseRequested(Some(ManagedWindow::Main)));
    assert forall|code: i32| !r.contains(Command::Exit(code)) by {
        if r.contains(Command::Exit(code)) {
            let i = choose|i: int| 0 <= i < r.len() && r[i] == Command::Exit(code);
            assert(i == 0 || i == 1);
        }
    }
}

proof fn lemma_toggle_flips(s: Shell, events: Seq<ShellEvent>)
    requires
        events.len() > 0,
        is_toggle(events.last()),
    ensures
        run(s, events).main == run(s, events.drop_last()).main.flipped(),
{
}

proof fn lemma_toggle_parity(s: Shell, events: Seq<ShellEvent>)
    requires
        s.main == Visibility::Visible,
        forall|i: int| 0 <= i < events.len() ==> is_toggle(#[trigger] events[i]),
    ensures
        run(s, events).main == (if events.len() % 2 == 0 {
            Visibility::Visible
        } else {
            Visibility::Hidden
        }),
    decreases events.len(),
{
    if events.len() > 0 {
        let front = events.drop_last();
        assert(is_toggle(events[events.len() - 1]));
        lemma_toggle_parity(s, front);
        lemma_toggle_flips(s, events);
    }
}

/// Starting with the main window shown, a run of toggle selections and
/// primary clicks on the tray icon alternates its visibility: hidden after an
/// odd number of them, shown after an even number, and each one flips it.
pub proof fn toggles_alternate(s: Shell, events: Seq<ShellEvent>)
    requires
        s.main == Visibility::Visible,
        forall|i: int| 0 <= i < events.len() ==> is_toggle(#[trigger] events[i]),
    ensures
        run(s, events).main == (if events.len() % 2 == 0 {
            Visibility::Visible
        } else {
            Visibility::Hidden
        }),
        forall|k: int|
            0 < k <= events.len() ==> (#[trigger] run(s, events.take(k))).main == run(
                s,
                events.take(k - 1),
            ).main.flipped(),
{
    lemma_toggle_parity(s, events);
    assert forall|k: int| 0 < k <= events.len() implies (#[trigger] run(
        s,
        events.take(k),
    )).main == run(s, events.take(k - 1)).main.flipped() by {
        let prefix = events.take(k);
        assert(prefix.drop_last() =~= events.take(k - 1));
        assert(is_toggle(events[k - 1]));
        assert(prefix.last() == events[k - 1]);
        lemma_toggle_flips(s, prefix);
    }
}

/// Selecting quit, whatever the windows' state, ends the process with exit
/// code 0 and issues nothing else.
pub proof fn quit_exits(s: Shell)
    ensures
        reaction(s, ShellEvent::MenuSelected(Some(MenuId::Quit))) == seq![
            Command::Exit(EXIT_SUCCESS),
        ],
        EXIT_SUCCESS == 0,
        next_state(s, ShellEvent::MenuSelected(Some(MenuId::Quit))) == s,
{
}

/// Where a settings window exists, selecting its menu item, whatever the
/// windows' state, leaves it shown and gives it the input focus.
pub proof fn settings_shown_and_focused(s: Shell)
    requires
        s.capabilities.settings_window,
    ensures
        next_state(s, ShellEvent::MenuSelected(Some(MenuId::Settings))).settings
            == Visibility::Visible,
        reaction(s, ShellEvent::MenuSelected(Some(MenuId::Settings))) == seq![
            Command::Show(ManagedWindow::Settings),
            Command::Focus(ManagedWindow::Settings),
        ],
{
}

} // verus!
