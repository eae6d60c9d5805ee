//! One-shot startup presentation shared by the desktop platforms.
//!
//! Native show requests are not necessarily synchronous (notably on GTK).
//! The window is shown once, after `Ready` and the next event-loop drain;
//! focus is requested once, when the window is first seen visible and not
//! minimized. Closing, destroying, blurring or minimizing the main window
//! while waiting, and application exit, retire the sequence for good.

use vstd::prelude::*;

verus! {

/// The label of the shell's only window.
pub const MAIN_WINDOW_LABEL: &'static str = "main";

/// `main`
pub open spec fn main_window_label() -> Seq<char> {
    seq!['m', 'a', 'i', 'n']
}

/// Where the startup sequence stands.
#[derive(Debug, PartialEq, Eq, Structural)]
pub enum StartupPresentation {
    WaitingForReady,
    WaitingToShow,
    WaitingForVisibility,
    Finished,
}

impl Default for StartupPresentation {
    fn default() -> (res: Self)
        ensures
            res == StartupPresentation::WaitingForReady,
    {
        StartupPresentation::WaitingForReady
    }
}

/// What the event loop should do after an event.
#[derive(Debug, PartialEq, Eq, Structural)]
pub enum Action {
    Idle,
    Show,
    CheckVisibility,
}

/// A window event, as far as startup reads it.
#[derive(Debug, Clone, PartialEq, Eq)]
pub enum WindowSignal {
    CloseRequested,
    Destroyed,
    Focused(bool),
    Other,
}

/// An event-loop event, as far as startup reads it.
#[derive(Debug, Clone, PartialEq, Eq)]
pub enum StartupEvent {
    Ready,
    Resumed,
    MainEventsCleared,
    WindowEvent { label: String, event: WindowSignal },
    Exit,
    Other,
}

/// The state after a window event on the window labelled `label`.
pub open spec fn window_step(
    s: StartupPresentation,
    label: Seq<char>,
    event: WindowSignal,
) -> StartupPresentation {
    if label != main_window_label() {
        s
    } else {
        match event {
            WindowSignal::CloseRequested | WindowSignal::Destroyed => StartupPresentation::Finished,
            WindowSignal::Focused(false) => if s == StartupPresentation::WaitingForVisibility {
                StartupPresentation::Finished
            } else {
                s
            },
            _ => s,
        }
    }
}

/// The state and action after an event-loop event.
pub open spec fn event_step(s: StartupPresentation, event: StartupEvent) -> (
    StartupPresentation,
    Action,
) {
    match event {
        StartupEvent::Ready => if s == StartupPresentation::WaitingForReady {
            (StartupPresentation::WaitingToShow, Action::Idle)
        } else {
            (s, Action::Idle)
        },
        StartupEvent::MainEventsCleared => match s {
            StartupPresentation::WaitingToShow => (
                StartupPresentation::WaitingForVisibility,
                Action::Show,
            ),
            StartupPresentation::WaitingForVisibility => (s, Action::CheckVisibility),
            _ => (s, Action::Idle),
        },
        StartupEvent::WindowEvent { label, event } => (window_step(s, label@, event), Action::Idle),
        StartupEvent::Exit => (StartupPresentation::Finished, Action::Idle),
        _ => (s, Action::Idle),
    }
}

/// The state after observing the window, and whether to focus it now.
pub open spec fn visibility_step(s: StartupPresentation, visible: bool, minimized: bool) -> (
    StartupPresentation,
    bool,
) {
    if s != StartupPresentation::WaitingForVisibility {
        (s, false)
    } else if minimized {
        (StartupPresentation::Finished, false)
    } else if visible {
        (StartupPresentation::Finished, true)
    } else {
        (s, false)
    }
}

fn is_main_window(label: &str) -> (res: bool)
    ensures
        res == (label@ == main_window_label()),
{
    let main = "main".to_owned();
    proof {
        reveal_strlit("main");
        assert(main@ =~= main_window_label());
    }
    label.to_owned() == main
}

impl StartupPresentation {
    /// Advances on an event-loop event. Called on the event-loop thread; this
    /// never waits for page loading.
    pub fn action(&mut self, event: &StartupEvent) -> (res: Action)
        ensures
            (*final(self), res) == event_step(*old(self), *event),
    {
        match event {
            StartupEvent::Ready => {
                if *self == StartupPresentation::WaitingForReady {
                    *self = StartupPresentation::WaitingToShow;
                }
            },
            StartupEvent::MainEventsCleared => {
                if *self == StartupPresentation::WaitingToShow {
                    *self = StartupPresentation::WaitingForVisibility;
                    return Action::Show;
                } else if *self == StartupPresentation::WaitingForVisibility {
                    return Action::CheckVisibility;
                }
            },
            StartupEvent::WindowEvent { label, event } => self.on_window_event(label.as_str(), event),
            StartupEvent::Exit => self.cancel(),
            _ => {},
        }
        Action::Idle
    }

    /// Advances on an event of the window labelled `label`.
    pub fn on_window_event(&mut self, label: &str, event: &WindowSignal)
        ensures
            *final(self) == window_step(*old(self), label@, *event),
    {
        if !is_main_window(label) {
            return ;
        }
        match event {
            WindowSignal::CloseRequested | WindowSignal::Destroyed => self.cancel(),
            WindowSignal::Focused(false) => {
                if *self == StartupPresentation::WaitingForVisibility {
                    self.cancel();
                }
            },
            _ => {},
        }
    }

    /// Reports the window's visibility; `true` when focus is to be requested
    /// now, which retires the sequence.
    pub fn take_focus(&mut self, visible: bool, minimized: bool) -> (res: bool)
        ensures
            (*final(self), res) == visibility_step(*old(self), visible, minimized),
    {
        if *self != StartupPresentation::WaitingForVisibility {
            return false;
        }
        if minimized {
            self.cancel();
            return false;
        }
        if visible {
            self.cancel();
            return true;
        }
        false
    }

    /// Retires the sequence: no show or focus request follows.
    pub fn cancel(&mut self)
        ensures
            *final(self) == StartupPresentation::Finished,
    {
        *self = StartupPresentation::Finished;
    }
}

/// One thing the event loop hands to the startup sequence.
pub enum StartupInput {
    /// An event-loop event ([`StartupPresentation::action`]).
    Event(StartupEvent),
    /// An observation of the main window ([`StartupPresentation::take_focus`]).
    Observed { visible: bool, minimized: bool },
    /// A failure of a native call ([`StartupPresentation::cancel`]).
    Failure,
}

/// The state after one input, whether it asks to show the window, and
/// whether it asks to focus it.
pub open spec fn input_step(s: StartupPresentation, input: StartupInput) -> (
    StartupPresentation,
    bool,
    bool,
) {
    match input {
        StartupInput::Event(e) => {
            let (t, a) = event_step(s, e);
            (t, a == Action::Show, false)
        },
        StartupInput::Observed { visible, minimized } => {
            let (t, focus) = visibility_step(s, visible, minimized);
            (t, false, focus)
        },
        StartupInput::Failure => (StartupPresentation::Finished, false, false),
    }
}

/// The final state after `inputs`, with the number of show requests and of
/// focus requests made on the way.
pub open spec fn run_inputs(s: StartupPresentation, inputs: Seq<StartupInput>) -> (
    StartupPresentation,
    nat,
    nat,
)
    decreases inputs.len(),
{
    if inputs.len() == 0 {
        (s, 0, 0)
    } else {
        let (t, show, focus) = input_step(s, inputs[0]);
        let (u, shows, focuses) = run_inputs(t, inputs.drop_first());
        (u, shows + if show {
            1nat
        } else {
            0nat
        }, focuses + if focus {
            1nat
        } else {
            0nat
        })
    }
}

/// Once retired, startup stays retired and requests nothing, whatever comes.
pub proof fn finished_is_final(inputs: Seq<StartupInput>)
    ensures
        run_inputs(StartupPresentation::Finished, inputs) == (
            StartupPresentation::Finished,
            0nat,
            0nat,
        ),
    decreases inputs.len(),
{
    if inputs.len() > 0 {
        finished_is_final(inputs.drop_first());
    }
}

/// Whatever the inputs, the window is shown at most once and never after
/// `Ready` has been followed by a drain; focus is requested at most once, only
/// before retirement, and never without a show request first (unless the
/// sequence is already waiting for visibility).
pub proof fn show_and_focus_at_most_once(s: StartupPresentation, inputs: Seq<StartupInput>)
    ensures
        run_inputs(s, inputs).1 <= (if s == StartupPresentation::WaitingForReady || s
            == StartupPresentation::WaitingToShow {
            1nat
        } else {
            0nat
        }),
        run_inputs(s, inputs).2 <= (if s == StartupPresentation::Finished {
            0nat
        } else {
            1nat
        }),
        run_inputs(s, inputs).2 <= run_inputs(s, inputs).1 + (if s
            == StartupPresentation::WaitingForVisibility {
            1nat
        } else {
            0nat
        }),
    decreases inputs.len(),
{
    if inputs.len() > 0 {
        let (t, _, _) = input_step(s, inputs[0]);
        show_and_focus_at_most_once(t, inputs.drop_first());
        if t == StartupPresentation::Finished {
            finished_is_final(inputs.drop_first());
        }
    }
}

/// Destroying or closing the main window before it is shown prevents any
/// presentation.
pub proof fn destruction_prevents_presentation(
    s: StartupPresentation,
    event: WindowSignal,
    inputs: Seq<StartupInput>,
)
    requires
        event == WindowSignal::Destroyed || event == WindowSignal::CloseRequested,
    ensures
        window_step(s, main_window_label(), event) == StartupPresentation::Finished,
        run_inputs(window_step(s, main_window_label(), event), inputs).1 == 0,
        run_inputs(window_step(s, main_window_label(), event), inputs).2 == 0,
{
    finished_is_final(inputs);
}

/// Only closing or destroying the main window retires startup outright, and
/// losing focus retires it only while waiting for visibility; any other
/// window event (focus gain, resize, move, ...) and any event of another
/// window leaves the state unchanged.
pub proof fn only_close_destroy_or_blur_cancel(
    s: StartupPresentation,
    label: Seq<char>,
    event: WindowSignal,
)
    ensures
        label != seq!['m', 'a', 'i', 'n'] ==> window_step(s, label, event) == s,
        event == WindowSignal::Other ==> window_step(s, label, event) == s,
        event == WindowSignal::Focused(true) ==> window_step(s, label, event) == s,
        label == seq!['m', 'a', 'i', 'n'] && (event == WindowSignal::CloseRequested || event
            == WindowSignal::Destroyed) ==> window_step(s, label, event)
            == StartupPresentation::Finished,
        label == seq!['m', 'a', 'i', 'n'] && event == WindowSignal::Focused(false) ==> (
        window_step(s, label, event) == StartupPresentation::Finished <==> (s
            == StartupPresentation::WaitingForVisibility || s == StartupPresentation::Finished)),
        window_step(s, label, event) == s || window_step(s, label, event)
            == StartupPresentation::Finished,
{
}

/// Show is asked for exactly on the first drain after `Ready`, visibility is
/// checked exactly on later drains while waiting for it, `Ready` only
/// leaves the initial state, `Exit` retires, and no other event changes
/// anything.
pub proof fn event_effects(s: StartupPresentation, e: StartupEvent)
    ensures
        event_step(s, e).1 == Action::Show <==> (s == StartupPresentation::WaitingToShow && e
            == StartupEvent::MainEventsCleared),
        event_step(s, e).1 == Action::CheckVisibility <==> (s
            == StartupPresentation::WaitingForVisibility && e == StartupEvent::MainEventsCleared),
        event_step(s, e).1 == Action::Show ==> event_step(s, e).0
            == StartupPresentation::WaitingForVisibility,
        e == StartupEvent::Ready ==> event_step(s, e).0 == (if s
            == StartupPresentation::WaitingForReady {
            StartupPresentation::WaitingToShow
        } else {
            s
        }),
        e == StartupEvent::Exit ==> event_step(s, e).0 == StartupPresentation::Finished,
        e == StartupEvent::Resumed || e == StartupEvent::Other ==> event_step(s, e) == (
            s,
            Action::Idle,
        ),
        e == StartupEvent::MainEventsCleared && s != StartupPresentation::WaitingToShow
            ==> event_step(s, e).0 == s,
{
}

/// Focus is asked for exactly when the sequence waits for visibility and
/// the window is visible and not minimized; seeing it minimized while
/// waiting retires without focus, and a hidden window keeps the wait going.
pub proof fn focus_only_when_visible(s: StartupPresentation, visible: bool, minimized: bool)
    ensures
        visibility_step(s, visible, minimized).1 <==> (s == StartupPresentation::WaitingForVisibility
            && visible && !minimized),
        s != StartupPresentation::WaitingForVisibility ==> visibility_step(s, visible, minimized).0
            == s,
        s == StartupPresentation::WaitingForVisibility && (visible || minimized)
            ==> visibility_step(s, visible, minimized).0 == StartupPresentation::Finished,
        s == StartupPresentation::WaitingForVisibility && !visible && !minimized ==> visibility_step(
            s,
            visible,
            minimized,
        ).0 == s,
{
}

} // verus!
