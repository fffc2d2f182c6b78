use vstd::prelude::*;

use crate::launch::LaunchArgs;

verus! {

/// An event that the shell sends to the main window, as a mathematical value.
pub enum Emitted {
    OpenFile(Seq<char>),
    AppCloseRequested,
}

/// An event that the shell sends to the main window.
#[derive(Debug)]
pub enum Outgoing {
    /// Asks the frontend to open the file at this path.
    OpenFile(String),
    /// Tells the frontend that the user tried to close the window.
    AppCloseRequested,
}

impl View for Outgoing {
    type V = Emitted;

    open spec fn view(&self) -> Emitted {
        match self {
            Outgoing::OpenFile(p) => Emitted::OpenFile(p@),
            Outgoing::AppCloseRequested => Emitted::AppCloseRequested,
        }
    }
}

/// The view of an optional outgoing event.
pub open spec fn emitted_of(o: Option<Outgoing>) -> Option<Emitted> {
    match o {
        Some(e) => Some(e@),
        None => None,
    }
}

/// The name under which an event is delivered to the webview.
pub open spec fn event_name(e: Emitted) -> Seq<char> {
    match e {
        Emitted::OpenFile(_) => "open-file"@,
        Emitted::AppCloseRequested => "app-close-requested"@,
    }
}

impl Outgoing {
    /// The event's name on the webview side.
    pub fn name(&self) -> (r: &'static str)
        ensures
            r@ == event_name(self@),
    {
        match self {
            Outgoing::OpenFile(_) => "open-file",
            Outgoing::AppCloseRequested => "app-close-requested",
        }
    }
}

/// A window-level event raised by the windowing layer.
#[derive(Debug, Clone, Copy, PartialEq, Eq, Structural)]
pub enum WindowEvent {
    /// The user asked to close the window.
    CloseRequested,
    /// Any other window event (focus, resize, move, ...).
    Other,
}

/// An event that reaches the shell: the webview's readiness signal, or a
/// window-level event.
#[derive(Debug, Clone, Copy, PartialEq, Eq, Structural)]
pub enum ShellEvent {
    /// The webview is ready to receive events; carries whether a window named
    /// `main` exists at that moment.
    FrontendReady { main_window_present: bool },
    Window(WindowEvent),
}

/// The shell's answer to one event, as a mathematical value.
pub struct ReactionView {
    pub prevent_close: bool,
    pub emit: Option<Emitted>,
}

/// The shell's answer to one event: whether the pending native close is
/// vetoed, and which event, if any, goes to the main window.
#[derive(Debug)]
pub struct Reaction {
    pub prevent_close: bool,
    pub emit: Option<Outgoing>,
}

impl View for Reaction {
    type V = ReactionView;

    open spec fn view(&self) -> ReactionView {
        ReactionView { prevent_close: self.prevent_close, emit: emitted_of(self.emit) }
    }
}

/// What readiness emits: the file path as an `open-file` event, when a path
/// was captured and the main window exists; nothing otherwise.
pub open spec fn ready_emission(path: Option<Seq<char>>, main_window_present: bool) -> Option<
    Emitted,
> {
    match path {
        Some(p) => if main_window_present {
            Some(Emitted::OpenFile(p))
        } else {
            None
        },
        None => None,
    }
}

/// The answer to a window event: a close request is always vetoed and turned
/// into an `app-close-requested` event; any other event is let through.
pub open spec fn window_reaction(e: WindowEvent) -> ReactionView {
    match e {
        WindowEvent::CloseRequested => ReactionView {
            prevent_close: true,
            emit: Some(Emitted::AppCloseRequested),
        },
        WindowEvent::Other => ReactionView { prevent_close: false, emit: None },
    }
}

/// The answer to any event that reaches the shell.
pub open spec fn reaction(path: Option<Seq<char>>, e: ShellEvent) -> ReactionView {
    match e {
        ShellEvent::FrontendReady { main_window_present } => ReactionView {
            prevent_close: false,
            emit: ready_emission(path, main_window_present),
        },
        ShellEvent::Window(w) => window_reaction(w),
    }
}

/// The answers to a sequence of events, one for each, in order.
pub open spec fn reactions(path: Option<Seq<char>>, events: Seq<ShellEvent>) -> Seq<ReactionView> {
    events.map_values(|e: ShellEvent| reaction(path, e))
}

/// Handles the webview's readiness signal: the event to send to the main
/// window, if any. There is no guard against repeated calls: each call
/// decides afresh.
pub fn frontend_ready(launch: &LaunchArgs, main_window_present: bool) -> (r: Option<Outgoing>)
    ensures
        emitted_of(r) == ready_emission(launch@, main_window_present),
{
    match &launch.file_path {
        Some(p) => {
            if main_window_present {
                Some(Outgoing::OpenFile(p.clone()))
            } else {
                None
            }
        },
        None => None,
    }
}

/// Handles a window-level event: vetoes every close request and forwards it
/// to the frontend as `app-close-requested`.
pub fn on_window_event(event: WindowEvent) -> (r: Reaction)
    ensures
        r@ == window_reaction(event),
{
    match event {
        WindowEvent::CloseRequested => Reaction {
            prevent_close: true,
            emit: Some(Outgoing::AppCloseRequested),
        },
        WindowEvent::Other => Reaction { prevent_close: false, emit: None },
    }
}

/// Handles any event that reaches the shell.
pub fn react(launch: &LaunchArgs, event: ShellEvent) -> (r: Reaction)
    ensures
        r@ == reaction(launch@, event),
{
    match event {
        ShellEvent::FrontendReady { main_window_present } => Reaction {
            prevent_close: false,
            emit: frontend_ready(launch, main_window_present),
        },
        ShellEvent::Window(w) => on_window_event(w),
    }
}

/// Handles a sequence of events in order, one answer for each.
pub fn react_all(launch: &LaunchArgs, events: &Vec<ShellEvent>) -> (r: Vec<Reaction>)
    ensures
        r@.len() == events@.len(),
        forall|i: int| 0 <= i < r@.len() ==> #[trigger] r@[i]@ == reactions(launch@, events@)[i],
{
    let mut out: Vec<Reaction> = Vec::new();
    let mut i: usize = 0;
    while i < events.len()
        invariant
            i <= events@.len(),
            out@.len() == i,
            forall|j: int| 0 <= j < i ==> #[trigger] out@[j]@ == reactions(launch@, events@)[j],
        decreases events@.len() - i,
    {
        let r = react(launch, events[i]);
        out.push(r);
        i = i + 1;
    }
    out
}

} // verus!
