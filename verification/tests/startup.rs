use dsh_desktop::startup::{
    Action, StartupEvent, StartupPresentation, WindowSignal, MAIN_WINDOW_LABEL,
};

fn shown() -> StartupPresentation {
    let mut startup = StartupPresentation::default();
    assert_eq!(startup.action(&StartupEvent::Ready), Action::Idle);
    assert_eq!(startup.action(&StartupEvent::MainEventsCleared), Action::Show);
    startup
}

fn assert_retired(startup: &mut StartupPresentation) {
    for event in [
        StartupEvent::Ready,
        StartupEvent::Resumed,
        StartupEvent::MainEventsCleared,
    ] {
        assert_eq!(startup.action(&event), Action::Idle);
    }
    assert!(!startup.take_focus(true, false));
    assert_eq!(*startup, StartupPresentation::Finished);
}

fn window_event(label: &str, event: WindowSignal) -> StartupEvent {
    StartupEvent::WindowEvent { label: String::from(label), event }
}

#[test]
fn waits_for_ready_and_a_subsequent_event_loop_drain() {
    let mut startup = StartupPresentation::default();
    for event in [StartupEvent::MainEventsCleared, StartupEvent::Resumed] {
        assert_eq!(startup.action(&event), Action::Idle);
        assert_eq!(startup, StartupPresentation::WaitingForReady);
    }
    assert_eq!(startup.action(&StartupEvent::Ready), Action::Idle);
    assert!(!startup.take_focus(true, false));
    assert_eq!(startup.action(&StartupEvent::Resumed), Action::Idle);
    assert_eq!(startup.action(&StartupEvent::MainEventsCleared), Action::Show);
}

#[test]
fn synchronous_show_can_focus_once_in_the_same_drain() {
    let mut startup = shown();
    assert!(startup.take_focus(true, false));
    assert_retired(&mut startup);
}

#[test]
fn asynchronous_show_waits_for_visibility_without_repeating_show() {
    let mut startup = shown();
    for _ in 0..3 {
        assert!(!startup.take_focus(false, false));
        assert_eq!(startup.action(&StartupEvent::Ready), Action::Idle);
        assert_eq!(
            startup.action(&StartupEvent::MainEventsCleared),
            Action::CheckVisibility
        );
    }
    assert!(startup.take_focus(true, false));
    assert_retired(&mut startup);
}

#[test]
fn minimizing_before_focus_retires_startup_even_if_still_hidden() {
    for visible in [false, true] {
        let mut startup = shown();
        assert!(!startup.take_focus(visible, true));
        assert_retired(&mut startup);
    }
}

#[test]
fn cancelled_or_failed_presentation_never_retries() {
    let mut startup = shown();
    startup.cancel(); // Missing window, show failure, or visibility query failure.
    assert_retired(&mut startup);
}

#[test]
fn main_window_blur_or_destruction_cancels_pending_focus() {
    for event in [WindowSignal::Focused(false), WindowSignal::Destroyed] {
        let mut startup = shown();
        startup.on_window_event(MAIN_WINDOW_LABEL, &event);
        assert_retired(&mut startup);
    }
}

#[test]
fn destruction_before_show_prevents_presentation() {
    for ready in [false, true] {
        let mut startup = StartupPresentation::default();
        if ready {
            assert_eq!(startup.action(&StartupEvent::Ready), Action::Idle);
        }
        startup.on_window_event(MAIN_WINDOW_LABEL, &WindowSignal::Destroyed);
        assert_retired(&mut startup);
    }
}

#[test]
fn ignores_initial_blur_other_windows_and_focus_gain() {
    let mut startup = StartupPresentation::default();
    startup.on_window_event(MAIN_WINDOW_LABEL, &WindowSignal::Focused(false));
    assert_eq!(startup.action(&StartupEvent::Ready), Action::Idle);
    startup.on_window_event(MAIN_WINDOW_LABEL, &WindowSignal::Focused(false));
    assert_eq!(startup.action(&StartupEvent::MainEventsCleared), Action::Show);
    startup.on_window_event("popup", &WindowSignal::Focused(false));
    startup.on_window_event("popup", &WindowSignal::Destroyed);
    startup.on_window_event(MAIN_WINDOW_LABEL, &WindowSignal::Focused(true));
    assert!(startup.take_focus(true, false));
}

#[test]
fn exit_before_ready_prevents_presentation() {
    let mut startup = StartupPresentation::default();
    assert_eq!(startup.action(&StartupEvent::Exit), Action::Idle);
    assert_retired(&mut startup);
}

#[test]
fn window_events_arrive_through_the_event_loop() {
    let mut startup = shown();
    assert_eq!(
        startup.action(&window_event("popup", WindowSignal::CloseRequested)),
        Action::Idle
    );
    assert_eq!(startup, StartupPresentation::WaitingForVisibility);
    assert_eq!(
        startup.action(&window_event(MAIN_WINDOW_LABEL, WindowSignal::CloseRequested)),
        Action::Idle
    );
    assert_retired(&mut startup);
}

#[test]
fn show_and_focus_are_requested_at_most_once() {
    let mut startup = StartupPresentation::default();
    let mut shows = 0;
    let mut focuses = 0;
    for round in 0..6 {
        for event in [
            StartupEvent::Ready,
            StartupEvent::MainEventsCleared,
            StartupEvent::Other,
        ] {
            if startup.action(&event) == Action::Show {
                shows += 1;
            }
        }
        if startup.take_focus(round >= 2, false) {
            focuses += 1;
        }
    }
    assert_eq!((shows, focuses), (1, 1));
    assert_eq!(startup, StartupPresentation::Finished);
}
