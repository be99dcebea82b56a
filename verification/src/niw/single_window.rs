//! The decisions of a single-window event loop: which subscribed handler an
//! event goes to, and what the loop itself does about it first.

use vstd::prelude::*;

use crate::niw::events_log::DeviceEventKind;
use crate::niw::events_log::EventKind;
use crate::niw::events_log::WindowEventKind;

verus! {

/// The handler that an event is handed to.
#[derive(Clone, Copy, PartialEq, Eq, Structural, Debug)]
pub enum HandlerSlot {
    NewEvents,
    UserEvent,
    Suspended,
    Resumed,
    MainEventsCleared,
    RedrawRequested,
    RedrawEventsCleared,
    LoopDestroyed,
    WinResized,
    WinMoved,
    WinCloseRequested,
    WinDestroyed,
    WinDroppedFile,
    WinHoveredFile,
    WinHoveredFileCancelled,
    WinReceivedCharacter,
    WinFocused,
    WinKeyboardInput,
    WinModifiersChanged,
    WinCursorMoved,
    WinCursorEntered,
    WinCursorLeft,
    WinMouseWheel,
    WinMouseInput,
    WinTouchpadPressure,
    WinAxisMotion,
    WinTouch,
    WinScaleFactorChanged,
    WinThemeChanged,
    DeviceAdded,
    DeviceRemoved,
    DeviceMouseMotion,
    DeviceMouseWheel,
    DeviceMotion,
    DeviceButton,
    DeviceKey,
    DeviceText,
    /// The event is dropped: it belongs to another window.
    NoOp,
}

/// What the loop does itself before calling the handler.
#[derive(Clone, Copy, PartialEq, Eq, Structural, Debug)]
pub enum LocalAction {
    Nothing,
    /// Ask the window for a redraw.
    RequestRedraw,
    /// Resize the renderer to the new window size.
    Resize,
    /// Resize the renderer to the new size and scale factor.
    ResizeWithScaleFactor,
    /// Stop the renderer and leave the event loop.
    StopAndExit,
}

/// Outcome of dispatching one event.
#[derive(Clone, Copy, PartialEq, Eq, Structural, Debug)]
pub struct Dispatch {
    pub handler: HandlerSlot,
    pub action: LocalAction,
}

/// The handler subscribed for each kind of event.
pub open spec fn handler_for(e: EventKind) -> HandlerSlot {
    match e {
        EventKind::NewEvents(_) => HandlerSlot::NewEvents,
        EventKind::UserEvent => HandlerSlot::UserEvent,
        EventKind::Suspended => HandlerSlot::Suspended,
        EventKind::Resumed => HandlerSlot::Resumed,
        EventKind::MainEventsCleared => HandlerSlot::MainEventsCleared,
        EventKind::RedrawRequested => HandlerSlot::RedrawRequested,
        EventKind::RedrawEventsCleared => HandlerSlot::RedrawEventsCleared,
        EventKind::LoopDestroyed => HandlerSlot::LoopDestroyed,
        EventKind::WindowEvent(WindowEventKind::Resized) => HandlerSlot::WinResized,
        EventKind::WindowEvent(WindowEventKind::Moved) => HandlerSlot::WinMoved,
        EventKind::WindowEvent(WindowEventKind::CloseRequested) => HandlerSlot::WinCloseRequested,
        EventKind::WindowEvent(WindowEventKind::Destroyed) => HandlerSlot::WinDestroyed,
        EventKind::WindowEvent(WindowEventKind::DroppedFile) => HandlerSlot::WinDroppedFile,
        EventKind::WindowEvent(WindowEventKind::HoveredFile) => HandlerSlot::WinHoveredFile,
        EventKind::WindowEvent(WindowEventKind::HoveredFileCancelled) => HandlerSlot::WinHoveredFileCancelled,
        EventKind::WindowEvent(WindowEventKind::ReceivedCharacter) => HandlerSlot::WinReceivedCharacter,
        EventKind::WindowEvent(WindowEventKind::Focused) => HandlerSlot::WinFocused,
        EventKind::WindowEvent(WindowEventKind::KeyboardInput) => HandlerSlot::WinKeyboardInput,
        EventKind::WindowEvent(WindowEventKind::ModifiersChanged) => HandlerSlot::WinModifiersChanged,
        EventKind::WindowEvent(WindowEventKind::CursorMoved) => HandlerSlot::WinCursorMoved,
        EventKind::WindowEvent(WindowEventKind::CursorEntered) => HandlerSlot::WinCursorEntered,
        EventKind::WindowEvent(WindowEventKind::CursorLeft) => HandlerSlot::WinCursorLeft,
        EventKind::WindowEvent(WindowEventKind::MouseWheel) => HandlerSlot::WinMouseWheel,
        EventKind::WindowEvent(WindowEventKind::MouseInput) => HandlerSlot::WinMouseInput,
        EventKind::WindowEvent(WindowEventKind::TouchpadPressure) => HandlerSlot::WinTouchpadPressure,
        EventKind::WindowEvent(WindowEventKind::AxisMotion) => HandlerSlot::WinAxisMotion,
        EventKind::WindowEvent(WindowEventKind::Touch) => HandlerSlot::WinTouch,
        EventKind::WindowEvent(WindowEventKind::ScaleFactorChanged) => HandlerSlot::WinScaleFactorChanged,
        EventKind::WindowEvent(WindowEventKind::ThemeChanged) => HandlerSlot::WinThemeChanged,
        EventKind::DeviceEvent(DeviceEventKind::Added) => HandlerSlot::DeviceAdded,
        EventKind::DeviceEvent(DeviceEventKind::Removed) => HandlerSlot::DeviceRemoved,
        EventKind::DeviceEvent(DeviceEventKind::MouseMotion) => HandlerSlot::DeviceMouseMotion,
        EventKind::DeviceEvent(DeviceEventKind::MouseWheel) => HandlerSlot::DeviceMouseWheel,
        EventKind::DeviceEvent(DeviceEventKind::Motion) => HandlerSlot::DeviceMotion,
        EventKind::DeviceEvent(DeviceEventKind::Button) => HandlerSlot::DeviceButton,
        EventKind::DeviceEvent(DeviceEventKind::Key) => HandlerSlot::DeviceKey,
        EventKind::DeviceEvent(DeviceEventKind::Text) => HandlerSlot::DeviceText,
    }
}

/// Events that carry a window id, and are dropped when it is not the loop's.
pub open spec fn is_window_bound(e: EventKind) -> bool {
    e is RedrawRequested || e is WindowEvent
}

/// What the loop does itself for an event of its own window.
pub open spec fn local_action_for(e: EventKind, exit_on_esc: bool, escape_pressed: bool) -> LocalAction {
    match e {
        EventKind::MainEventsCleared => LocalAction::RequestRedraw,
        EventKind::WindowEvent(WindowEventKind::Resized) => LocalAction::Resize,
        EventKind::WindowEvent(WindowEventKind::ScaleFactorChanged) => LocalAction::ResizeWithScaleFactor,
        EventKind::WindowEvent(WindowEventKind::CloseRequested) => LocalAction::StopAndExit,
        EventKind::WindowEvent(WindowEventKind::KeyboardInput) => if exit_on_esc && escape_pressed {
            LocalAction::StopAndExit
        } else {
            LocalAction::Nothing
        },
        _ => LocalAction::Nothing,
    }
}

/// Decides where `event` goes. `own_window` tells whether a window-bound
/// event names the loop's window; `escape_pressed` whether a keyboard input
/// is the Escape key being pressed.
pub fn dispatch(event: &EventKind, own_window: bool, exit_on_esc: bool, escape_pressed: bool) -> (d: Dispatch)
    ensures
        is_window_bound(*event) && !own_window ==> d == (Dispatch {
            handler: HandlerSlot::NoOp,
            action: LocalAction::Nothing,
        }),
        !(is_window_bound(*event) && !own_window) ==> d == (Dispatch {
            handler: handler_for(*event),
            action: local_action_for(*event, exit_on_esc, escape_pressed),
        }),
{
    let no_op = Dispatch { handler: HandlerSlot::NoOp, action: LocalAction::Nothing };
    match event {
        EventKind::NewEvents(_) => Dispatch { handler: HandlerSlot::NewEvents, action: LocalAction::Nothing },
        EventKind::MainEventsCleared => Dispatch {
            handler: HandlerSlot::MainEventsCleared,
            action: LocalAction::RequestRedraw,
        },
        EventKind::RedrawRequested => if own_window {
            Dispatch { handler: HandlerSlot::RedrawRequested, action: LocalAction::Nothing }
        } else {
            no_op
        },
        EventKind::UserEvent => Dispatch { handler: HandlerSlot::UserEvent, action: LocalAction::Nothing },
        EventKind::Suspended => Dispatch { handler: HandlerSlot::Suspended, action: LocalAction::Nothing },
        EventKind::Resumed => Dispatch { handler: HandlerSlot::Resumed, action: LocalAction::Nothing },
        EventKind::RedrawEventsCleared => Dispatch { handler: HandlerSlot::RedrawEventsCleared, action: LocalAction::Nothing },
        EventKind::LoopDestroyed => Dispatch { handler: HandlerSlot::LoopDestroyed, action: LocalAction::Nothing },
        EventKind::WindowEvent(we) => {
            if !own_window {
                return no_op;
            }
            match we {
                WindowEventKind::Resized => Dispatch {
                    handler: HandlerSlot::WinResized,
                    action: LocalAction::Resize,
                },
                WindowEventKind::CloseRequested => Dispatch {
                    handler: HandlerSlot::WinCloseRequested,
                    action: LocalAction::StopAndExit,
                },
                WindowEventKind::KeyboardInput => Dispatch {
                    handler: HandlerSlot::WinKeyboardInput,
                    action: if exit_on_esc && escape_pressed {
                        LocalAction::StopAndExit
                    } else {
                        LocalAction::Nothing
                    },
                },
                WindowEventKind::ScaleFactorChanged => Dispatch {
                    handler: HandlerSlot::WinScaleFactorChanged,
                    action: LocalAction::ResizeWithScaleFactor,
                },
                WindowEventKind::Moved => Dispatch { handler: HandlerSlot::WinMoved, action: LocalAction::Nothing },
                WindowEventKind::Destroyed => Dispatch { handler: HandlerSlot::WinDestroyed, action: LocalAction::Nothing },
                WindowEventKind::DroppedFile => Dispatch { handler: HandlerSlot::WinDroppedFile, action: LocalAction::Nothing },
                WindowEventKind::HoveredFile => Dispatch { handler: HandlerSlot::WinHoveredFile, action: LocalAction::Nothing },
                WindowEventKind::HoveredFileCancelled => Dispatch { handler: HandlerSlot::WinHoveredFileCancelled, action: LocalAction::Nothing },
                WindowEventKind::ReceivedCharacter => Dispatch { handler: HandlerSlot::WinReceivedCharacter, action: LocalAction::Nothing },
                WindowEventKind::Focused => Dispatch { handler: HandlerSlot::WinFocused, action: LocalAction::Nothing },
                WindowEventKind::ModifiersChanged => Dispatch { handler: HandlerSlot::WinModifiersChanged, action: LocalAction::Nothing },
                WindowEventKind::CursorMoved => Dispatch { handler: HandlerSlot::WinCursorMoved, action: LocalAction::Nothing },
                WindowEventKind::CursorEntered => Dispatch { handler: HandlerSlot::WinCursorEntered, action: LocalAction::Nothing },
                WindowEventKind::CursorLeft => Dispatch { handler: HandlerSlot::WinCursorLeft, action: LocalAction::Nothing },
                WindowEventKind::MouseWheel => Dispatch { handler: HandlerSlot::WinMouseWheel, action: LocalAction::Nothing },
                WindowEventKind::MouseInput => Dispatch { handler: HandlerSlot::WinMouseInput, action: LocalAction::Nothing },
                WindowEventKind::TouchpadPressure => Dispatch { handler: HandlerSlot::WinTouchpadPressure, action: LocalAction::Nothing },
                WindowEventKind::AxisMotion => Dispatch { handler: HandlerSlot::WinAxisMotion, action: LocalAction::Nothing },
                WindowEventKind::Touch => Dispatch { handler: HandlerSlot::WinTouch, action: LocalAction::Nothing },
                WindowEventKind::ThemeChanged => Dispatch { handler: HandlerSlot::WinThemeChanged, action: LocalAction::Nothing },
            }
        },
        EventKind::DeviceEvent(de) => {
            let handler = match de {
                DeviceEventKind::Added => HandlerSlot::DeviceAdded,
                DeviceEventKind::Removed => HandlerSlot::DeviceRemoved,
                DeviceEventKind::MouseMotion => HandlerSlot::DeviceMouseMotion,
                DeviceEventKind::MouseWheel => HandlerSlot::DeviceMouseWheel,
                DeviceEventKind::Motion => HandlerSlot::DeviceMotion,
                DeviceEventKind::Button => HandlerSlot::DeviceButton,
                DeviceEventKind::Key => HandlerSlot::DeviceKey,
                DeviceEventKind::Text => HandlerSlot::DeviceText,
            };
            Dispatch { handler, action: LocalAction::Nothing }
        },
    }
}

/// The loop leaves only when its own window asks to close, or when Escape
/// is pressed in it while exit-on-escape is set; a window-bound event of
/// another window never makes it leave.
pub proof fn lemma_exit_only_on_close_or_escape(
    e: EventKind,
    own_window: bool,
    exit_on_esc: bool,
    escape_pressed: bool,
)
    ensures
        local_action_for(e, exit_on_esc, escape_pressed) == LocalAction::StopAndExit <==> (e
            == EventKind::WindowEvent(WindowEventKind::CloseRequested) || (e == EventKind::WindowEvent(
            WindowEventKind::KeyboardInput,
        ) && exit_on_esc && escape_pressed)),
        local_action_for(e, exit_on_esc, escape_pressed) == LocalAction::StopAndExit ==> is_window_bound(e),
{
}

/// The loop resizes its renderer exactly on its own window's resize (to the
/// new size) and scale-factor change (to the new size and factor), and asks
/// for a redraw exactly when the main events are cleared; on every other
/// event it does nothing or, on close and Escape, stops.
pub proof fn lemma_local_actions(e: EventKind, exit_on_esc: bool, escape_pressed: bool)
    ensures
        local_action_for(e, exit_on_esc, escape_pressed) == LocalAction::Resize <==> e == EventKind::WindowEvent(
            WindowEventKind::Resized,
        ),
        local_action_for(e, exit_on_esc, escape_pressed) == LocalAction::ResizeWithScaleFactor <==> e
            == EventKind::WindowEvent(WindowEventKind::ScaleFactorChanged),
        local_action_for(e, exit_on_esc, escape_pressed) == LocalAction::RequestRedraw <==> e
            == EventKind::MainEventsCleared,
{
}

/// The event each handler slot is named after; `None` for the slot of the
/// `NewEvents` of every start cause, and for the slot of dropped events.
pub open spec fn slot_event(h: HandlerSlot) -> Option<EventKind> {
    match h {
        HandlerSlot::UserEvent => Some(EventKind::UserEvent),
        HandlerSlot::Suspended => Some(EventKind::Suspended),
        HandlerSlot::Resumed => Some(EventKind::Resumed),
        HandlerSlot::MainEventsCleared => Some(EventKind::MainEventsCleared),
        HandlerSlot::RedrawRequested => Some(EventKind::RedrawRequested),
        HandlerSlot::RedrawEventsCleared => Some(EventKind::RedrawEventsCleared),
        HandlerSlot::LoopDestroyed => Some(EventKind::LoopDestroyed),
        HandlerSlot::WinResized => Some(EventKind::WindowEvent(WindowEventKind::Resized)),
        HandlerSlot::WinMoved => Some(EventKind::WindowEvent(WindowEventKind::Moved)),
        HandlerSlot::WinCloseRequested => Some(EventKind::WindowEvent(WindowEventKind::CloseRequested)),
        HandlerSlot::WinDestroyed => Some(EventKind::WindowEvent(WindowEventKind::Destroyed)),
        HandlerSlot::WinDroppedFile => Some(EventKind::WindowEvent(WindowEventKind::DroppedFile)),
        HandlerSlot::WinHoveredFile => Some(EventKind::WindowEvent(WindowEventKind::HoveredFile)),
        HandlerSlot::WinHoveredFileCancelled => Some(EventKind::WindowEvent(WindowEventKind::HoveredFileCancelled)),
        HandlerSlot::WinReceivedCharacter => Some(EventKind::WindowEvent(WindowEventKind::ReceivedCharacter)),
        HandlerSlot::WinFocused => Some(EventKind::WindowEvent(WindowEventKind::Focused)),
        HandlerSlot::WinKeyboardInput => Some(EventKind::WindowEvent(WindowEventKind::KeyboardInput)),
        HandlerSlot::WinModifiersChanged => Some(EventKind::WindowEvent(WindowEventKind::ModifiersChanged)),
        HandlerSlot::WinCursorMoved => Some(EventKind::WindowEvent(WindowEventKind::CursorMoved)),
        HandlerSlot::WinCursorEntered => Some(EventKind::WindowEvent(WindowEventKind::CursorEntered)),
        HandlerSlot::WinCursorLeft => Some(EventKind::WindowEvent(WindowEventKind::CursorLeft)),
        HandlerSlot::WinMouseWheel => Some(EventKind::WindowEvent(WindowEventKind::MouseWheel)),
        HandlerSlot::WinMouseInput => Some(EventKind::WindowEvent(WindowEventKind::MouseInput)),
        HandlerSlot::WinTouchpadPressure => Some(EventKind::WindowEvent(WindowEventKind::TouchpadPressure)),
        HandlerSlot::WinAxisMotion => Some(EventKind::WindowEvent(WindowEventKind::AxisMotion)),
        HandlerSlot::WinTouch => Some(EventKind::WindowEvent(WindowEventKind::Touch)),
        HandlerSlot::WinScaleFactorChanged => Some(EventKind::WindowEvent(WindowEventKind::ScaleFactorChanged)),
        HandlerSlot::WinThemeChanged => Some(EventKind::WindowEvent(WindowEventKind::ThemeChanged)),
        HandlerSlot::DeviceAdded => Some(EventKind::DeviceEvent(DeviceEventKind::Added)),
        HandlerSlot::DeviceRemoved => Some(EventKind::DeviceEvent(DeviceEventKind::Removed)),
        HandlerSlot::DeviceMouseMotion => Some(EventKind::DeviceEvent(DeviceEventKind::MouseMotion)),
        HandlerSlot::DeviceMouseWheel => Some(EventKind::DeviceEvent(DeviceEventKind::MouseWheel)),
        HandlerSlot::DeviceMotion => Some(EventKind::DeviceEvent(DeviceEventKind::Motion)),
        HandlerSlot::DeviceButton => Some(EventKind::DeviceEvent(DeviceEventKind::Button)),
        HandlerSlot::DeviceKey => Some(EventKind::DeviceEvent(DeviceEventKind::Key)),
        HandlerSlot::DeviceText => Some(EventKind::DeviceEvent(DeviceEventKind::Text)),
        _ => None,
    }
}

/// Every event other than `NewEvents` goes to the slot named after its own
/// kind, and `NewEvents` of every start cause to the `NewEvents` slot.
pub proof fn lemma_handler_named_after_event(e: EventKind)
    ensures
        !(e is NewEvents) ==> slot_event(handler_for(e)) == Some(e),
        e is NewEvents ==> handler_for(e) == HandlerSlot::NewEvents,
{
}

/// Each kind of event goes to a handler of its own: two events go to the
/// same handler only when they are both `NewEvents` (of any start cause);
/// and no event of the loop's own window is dropped.
pub proof fn lemma_handlers_distinct(e1: EventKind, e2: EventKind)
    ensures
        handler_for(e1) == handler_for(e2) ==> e1 == e2 || (e1 is NewEvents && e2 is NewEvents),
        handler_for(e1) != HandlerSlot::NoOp,
{
}

/// The loop's control flow after an event: the flow the handler returned,
/// when it returned one; else `exit` when the loop's own action was to stop;
/// else the current flow, unchanged.
pub open spec fn next_flow<F>(action: LocalAction, handler_result: Option<F>, current: F, exit: F) -> F {
    match handler_result {
        Some(v) => v,
        None => if action == LocalAction::StopAndExit {
            exit
        } else {
            current
        },
    }
}

/// The loop's control flow after an event, from the loop's own action, what
/// the event's handler returned, the current flow and the flow that leaves
/// the loop.
pub fn next_control_flow<F>(action: LocalAction, handler_result: Option<F>, current: F, exit: F) -> (r: F)
    ensures
        r == next_flow(action, handler_result, current, exit),
{
    match handler_result {
        Some(v) => v,
        None => match action {
            LocalAction::StopAndExit => exit,
            _ => current,
        },
    }
}

} // verus!
