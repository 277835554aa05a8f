//! Decisions of the terminal front end's runner: how raw terminal events
//! become application events, and what each application event or screen
//! action obliges the runner to do.  Drawing, the terminal itself, and the
//! channels to downstream services stay with the runner's I/O loop.

use vstd::prelude::*;

verus! {

/// A command the key handler produces for the screens.
#[derive(Clone, Copy, Debug, PartialEq, Eq, Structural)]
pub enum Cmd {
    Tick,
    DumpSnapshot,
    Other,
}

/// A pressed key, reduced to what the runner inspects.
#[derive(Clone, Copy, Debug, PartialEq, Eq, Structural)]
pub enum KeyCode {
    Char(char),
    Other,
}

/// The modifier held with a key press.
#[derive(Clone, Copy, Debug, PartialEq, Eq, Structural)]
pub enum KeyModifiers {
    Unmodified,
    Control,
    Shift,
    Alt,
}

/// One key press.
#[derive(Clone, Copy, Debug, PartialEq, Eq, Structural)]
pub struct KeyEvent {
    pub code: KeyCode,
    pub modifiers: KeyModifiers,
}

/// Whether a key press is control-C, the unconditional exit.
pub fn is_control_c(key_event: &KeyEvent) -> (r: bool)
    ensures
        r == (key_event.code == KeyCode::Char('c') && key_event.modifiers
            == KeyModifiers::Control),
{
    match key_event.code {
        KeyCode::Char(c) => c == 'c' && match key_event.modifiers {
            KeyModifiers::Control => true,
            _ => false,
        },
        _ => false,
    }
}

/// A raw terminal event, as the event stream delivers it.
#[derive(Clone, Copy, Debug, PartialEq, Eq, Structural)]
pub enum TermEvent {
    Key(KeyEvent),
    Resize { width: u16, height: u16 },
    Other,
}

/// An application event: everything the runner's single event channel
/// carries.
#[derive(Clone, Copy, Debug, PartialEq, Eq, Structural)]
pub enum Event {
    /// The periodic tick that advances service liveness displays.
    Tick,
    /// A command produced from a key press.
    Term(Cmd),
    /// The terminal was resized.
    Resize { width: u16, height: u16 },
    /// New rack inventory arrived.
    Inventory,
    /// New artifact and event reports arrived.
    ArtifactsAndEventReports,
    /// Shut the runner down.
    Shutdown,
}

/// Turns one raw terminal event into an application event: control-C shuts
/// down, any other key press forwards whatever command the key handler
/// made of it, a resize is passed through, and everything else is dropped.
pub fn classify_term_event(event: &TermEvent, key_cmd: Option<Cmd>) -> (r: Option<Event>)
    ensures
        ((*event) matches TermEvent::Key(k) ==> {
            if k.code == KeyCode::Char('c') && k.modifiers == KeyModifiers::Control {
                r == Some(Event::Shutdown)
            } else {
                match key_cmd {
                    Some(c) => r == Some(Event::Term(c)),
                    None => r is None,
                }
            }
        }),
        ((*event) matches TermEvent::Resize { width, height } ==> r == Some(
            Event::Resize { width, height },
        )),
        event is Other ==> r is None,
{
    match event {
        TermEvent::Key(key_event) => {
            if is_control_c(key_event) {
                Some(Event::Shutdown)
            } else {
                match key_cmd {
                    Some(cmd) => Some(Event::Term(cmd)),
                    None => None,
                }
            }
        },
        TermEvent::Resize { width, height } => Some(
            Event::Resize { width: *width, height: *height },
        ),
        TermEvent::Other => None,
    }
}

/// An action a screen hands back to the runner.
#[derive(Clone, Copy, Debug, PartialEq, Eq, Structural)]
pub enum Action {
    Redraw,
    Update(u64),
    Ignition(u64, IgnitionCommand),
}

/// An ignition command for one rack component.
#[derive(Clone, Copy, Debug, PartialEq, Eq, Structural)]
pub enum IgnitionCommand {
    PowerOn,
    PowerOff,
    Reset,
}

/// What the runner must do with a screen's action.
#[derive(Clone, Copy, Debug, PartialEq, Eq, Structural)]
pub enum ActionStep {
    Nothing,
    Redraw,
    SendStartUpdate(u64),
    SendIgnitionCommand(u64, IgnitionCommand),
}

/// Decides the runner's obligation for a screen action: redraw locally, or
/// forward a request to the management service.
pub fn handle_action_step(action: Option<Action>) -> (r: ActionStep)
    ensures
        action is None ==> r == ActionStep::Nothing,
        action == Some(Action::Redraw) ==> r == ActionStep::Redraw,
        (action matches Some(a) ==> (a matches Action::Update(c) ==> r
            == ActionStep::SendStartUpdate(c))),
        (action matches Some(a) ==> (a matches Action::Ignition(c, cmd) ==> r
            == ActionStep::SendIgnitionCommand(c, cmd))),
{
    match action {
        None => ActionStep::Nothing,
        Some(Action::Redraw) => ActionStep::Redraw,
        Some(Action::Update(component)) => ActionStep::SendStartUpdate(component),
        Some(Action::Ignition(component, cmd)) => ActionStep::SendIgnitionCommand(component, cmd),
    }
}

/// What the runner must do with one application event.
#[derive(Clone, Copy, Debug, PartialEq, Eq, Structural)]
pub enum EventStep {
    /// Advance the status displays, dispatch a tick to the screen, and
    /// redraw if anything changed.
    AdvanceTickAndDispatch,
    /// Dump the recorded event history.
    DumpSnapshot,
    /// Dispatch a command to the current screen.
    Dispatch(Cmd),
    /// Resize the screen and redraw.
    ResizeAndRedraw { width: u16, height: u16 },
    /// Update the inventory view and redraw.
    UpdateInventoryAndRedraw,
    /// Update the artifact reports and redraw.
    UpdateArtifactsAndRedraw,
    /// Stop the runner.
    Shutdown,
}

/// Routes one application event to the runner's obligation for it.  This
/// is the whole of the event loop's branching; the runner performs the
/// returned step and reports back the screen's action.
pub fn route_event(event: &Event) -> (r: EventStep)
    ensures
        event is Tick ==> r == EventStep::AdvanceTickAndDispatch,
        ((*event) matches Event::Term(c) ==> (if c == Cmd::DumpSnapshot {
            r == EventStep::DumpSnapshot
        } else {
            r == EventStep::Dispatch(c)
        })),
        ((*event) matches Event::Resize { width, height } ==> r == EventStep::ResizeAndRedraw {
            width,
            height,
        }),
        event is Inventory ==> r == EventStep::UpdateInventoryAndRedraw,
        event is ArtifactsAndEventReports ==> r == EventStep::UpdateArtifactsAndRedraw,
        event is Shutdown ==> r == EventStep::Shutdown,
{
    match event {
        Event::Tick => EventStep::AdvanceTickAndDispatch,
        Event::Term(cmd) => {
            if *cmd == Cmd::DumpSnapshot {
                EventStep::DumpSnapshot
            } else {
                EventStep::Dispatch(*cmd)
            }
        },
        Event::Resize { width, height } => EventStep::ResizeAndRedraw {
            width: *width,
            height: *height,
        },
        Event::Inventory => EventStep::UpdateInventoryAndRedraw,
        Event::ArtifactsAndEventReports => EventStep::UpdateArtifactsAndRedraw,
        Event::Shutdown => EventStep::Shutdown,
    }
}

/// The screen showing the rack inventory as learned from the management
/// service.  Its drawing is the terminal layer's work.
#[derive(Debug)]
pub struct InventoryScreen {}

impl InventoryScreen {
    /// A fresh inventory screen.
    pub fn new() -> (r: InventoryScreen) {
        InventoryScreen {  }
    }
}

/// The debug server that receives recorded runner commands over a socket,
/// runs them, and returns the outcome; one client at a time, because there
/// is one human debugging and one screen to show.  The socket handling is
/// the I/O layer's work.
#[derive(Debug)]
pub struct Server {}

} // verus!
