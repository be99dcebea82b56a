use gpgpu::niw::events_log::{
    event_name, to_event_name, DeviceEventKind, EventKind, EventsLog, StartCause, WindowEventKind,
    EVENT_NAME_COUNT,
};
use gpgpu::niw::single_window::{dispatch, next_control_flow, Dispatch, HandlerSlot, LocalAction};

#[test]
fn event_names() {
    assert_eq!(to_event_name(&EventKind::NewEvents(StartCause::Poll)), "Event::NewEvents(Pool)");
    assert_eq!(
        to_event_name(&EventKind::WindowEvent(WindowEventKind::Resized)),
        "WindowEvent::Resized"
    );
    assert_eq!(to_event_name(&EventKind::DeviceEvent(DeviceEventKind::Key)), "DeviceEvent::Key");
    assert_eq!(to_event_name(&EventKind::RedrawRequested), "Event::RedrawEventsCleared");
    let names: Vec<&str> = (0..EVENT_NAME_COUNT).map(event_name).collect();
    let mut sorted = names.clone();
    sorted.sort();
    sorted.dedup();
    assert_eq!(names, sorted);
}

#[test]
fn events_log_counts_by_name() {
    let mut log = EventsLog::new();
    log.append(&EventKind::Resumed);
    log.append(&EventKind::RedrawRequested);
    log.append(&EventKind::RedrawEventsCleared);
    log.append(&EventKind::Resumed);
    log.append(&EventKind::Resumed);
    let rows = log.to_rows(2);
    assert_eq!(rows, vec![("Event::RedrawEventsCleared", 2, 1), ("Event::Resumed", 3, 1)]);
    let rows = log.to_rows(0);
    assert_eq!(rows, vec![("Event::RedrawEventsCleared", 2, 2), ("Event::Resumed", 3, 3)]);
    assert_eq!(EventsLog::new().to_rows(5), vec![]);
}

#[test]
fn dispatch_decisions() {
    let close = EventKind::WindowEvent(WindowEventKind::CloseRequested);
    assert_eq!(
        dispatch(&close, true, true, false),
        Dispatch { handler: HandlerSlot::WinCloseRequested, action: LocalAction::StopAndExit }
    );
    assert_eq!(
        dispatch(&close, false, true, false),
        Dispatch { handler: HandlerSlot::NoOp, action: LocalAction::Nothing }
    );
    let key = EventKind::WindowEvent(WindowEventKind::KeyboardInput);
    assert_eq!(dispatch(&key, true, true, true).action, LocalAction::StopAndExit);
    assert_eq!(dispatch(&key, true, false, true).action, LocalAction::Nothing);
    assert_eq!(dispatch(&key, true, true, false).action, LocalAction::Nothing);
    assert_eq!(
        dispatch(&EventKind::MainEventsCleared, false, true, false),
        Dispatch { handler: HandlerSlot::MainEventsCleared, action: LocalAction::RequestRedraw }
    );
    assert_eq!(dispatch(&EventKind::RedrawRequested, false, true, false).handler, HandlerSlot::NoOp);
    assert_eq!(
        dispatch(&EventKind::WindowEvent(WindowEventKind::ScaleFactorChanged), true, true, false),
        Dispatch {
            handler: HandlerSlot::WinScaleFactorChanged,
            action: LocalAction::ResizeWithScaleFactor
        }
    );
    assert_eq!(
        dispatch(&EventKind::DeviceEvent(DeviceEventKind::Button), false, true, false),
        Dispatch { handler: HandlerSlot::DeviceButton, action: LocalAction::Nothing }
    );
}

#[test]
fn events_log_count_reads_one_name() {
    let mut log = EventsLog::new();
    let moved = EventKind::WindowEvent(WindowEventKind::Moved);
    assert_eq!(log.count(&moved), 0);
    log.append(&moved);
    log.append(&moved);
    log.append(&EventKind::RedrawRequested);
    assert_eq!(log.count(&moved), 2);
    assert_eq!(log.count(&EventKind::RedrawEventsCleared), 1);
    assert_eq!(log.count(&EventKind::Resumed), 0);
}

#[test]
fn control_flow_after_an_event() {
    assert_eq!(next_control_flow(LocalAction::StopAndExit, Some(1), 0, 9), 1);
    assert_eq!(next_control_flow(LocalAction::StopAndExit, None, 0, 9), 9);
    assert_eq!(next_control_flow(LocalAction::Nothing, None, 0, 9), 0);
    assert_eq!(next_control_flow(LocalAction::Resize, Some(2), 0, 9), 2);
    assert_eq!(next_control_flow(LocalAction::RequestRedraw, None, 3, 9), 3);
}
