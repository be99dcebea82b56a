//! Laws of the event names: every event is logged under the text of its own
//! kind, and events of different kinds under different names.

use vstd::prelude::*;

use crate::fonts::order::lemma_text_order_antisymmetric;
use crate::fonts::order::lemma_text_order_transitive;
use crate::fonts::order::text_order;
use crate::fonts::order::NameOrder;
use crate::niw::events_log::event_name_index;
use crate::niw::events_log::event_name_text;
use crate::niw::events_log::DeviceEventKind;
use crate::niw::events_log::EventKind;
use crate::niw::events_log::StartCause;
use crate::niw::events_log::WindowEventKind;
use crate::niw::events_log::EVENT_NAME_COUNT;

verus! {

/// The name of a kind of window event.
pub open spec fn window_kind_name(k: WindowEventKind) -> Seq<char> {
    match k {
        WindowEventKind::Resized => "Resized"@,
        WindowEventKind::Moved => "Moved"@,
        WindowEventKind::CloseRequested => "CloseRequested"@,
        WindowEventKind::Destroyed => "Destroyed"@,
        WindowEventKind::DroppedFile => "DroppedFile"@,
        WindowEventKind::HoveredFile => "HoveredFile"@,
        WindowEventKind::HoveredFileCancelled => "HoveredFileCancelled"@,
        WindowEventKind::ReceivedCharacter => "ReceivedCharacter"@,
        WindowEventKind::Focused => "Focused"@,
        WindowEventKind::KeyboardInput => "KeyboardInput"@,
        WindowEventKind::ModifiersChanged => "ModifiersChanged"@,
        WindowEventKind::CursorMoved => "CursorMoved"@,
        WindowEventKind::CursorEntered => "CursorEntered"@,
        WindowEventKind::CursorLeft => "CursorLeft"@,
        WindowEventKind::MouseWheel => "MouseWheel"@,
        WindowEventKind::MouseInput => "MouseInput"@,
        WindowEventKind::TouchpadPressure => "TouchpadPressure"@,
        WindowEventKind::AxisMotion => "AxisMotion"@,
        WindowEventKind::Touch => "Touch"@,
        WindowEventKind::ScaleFactorChanged => "ScaleFactorChanged"@,
        WindowEventKind::ThemeChanged => "ThemeChanged"@,
    }
}

/// The name of a kind of device event.
pub open spec fn device_kind_name(k: DeviceEventKind) -> Seq<char> {
    match k {
        DeviceEventKind::Added => "Added"@,
        DeviceEventKind::Removed => "Removed"@,
        DeviceEventKind::MouseMotion => "MouseMotion"@,
        DeviceEventKind::MouseWheel => "MouseWheel"@,
        DeviceEventKind::Motion => "Motion"@,
        DeviceEventKind::Button => "Button"@,
        DeviceEventKind::Key => "Key"@,
        DeviceEventKind::Text => "Text"@,
    }
}

/// The name of a start cause; the polling cause is spelled `Pool`.
pub open spec fn start_cause_name(c: StartCause) -> Seq<char> {
    match c {
        StartCause::ResumeTimeReached => "ResumeTimeReached"@,
        StartCause::WaitCancelled => "WaitCancelled"@,
        StartCause::Poll => "Pool"@,
        StartCause::Init => "Init"@,
    }
}

/// The text an event of each kind is logged under: its family (`Event`,
/// `WindowEvent` or `DeviceEvent`), `::`, and the kind's own name, with the
/// start cause in brackets for `NewEvents`. A redraw request goes by the
/// name of `RedrawEventsCleared`.
pub open spec fn event_kind_text(e: EventKind) -> Seq<char> {
    match e {
        EventKind::NewEvents(c) => "Event::NewEvents("@ + start_cause_name(c) + ")"@,
        EventKind::WindowEvent(k) => "WindowEvent::"@ + window_kind_name(k),
        EventKind::DeviceEvent(k) => "DeviceEvent::"@ + device_kind_name(k),
        EventKind::UserEvent => "Event::UserEvent"@,
        EventKind::Suspended => "Event::Suspended"@,
        EventKind::Resumed => "Event::Resumed"@,
        EventKind::MainEventsCleared => "Event::MainEventsCleared"@,
        EventKind::RedrawRequested => "Event::RedrawEventsCleared"@,
        EventKind::RedrawEventsCleared => "Event::RedrawEventsCleared"@,
        EventKind::LoopDestroyed => "Event::LoopDestroyed"@,
    }
}

/// Every event is logged under the text of its own kind.
pub proof fn lemma_event_name_is_kind_text(e: EventKind)
    ensures
        event_name_text(event_name_index(e)) == event_kind_text(e),
{
    match e {
        EventKind::NewEvents(StartCause::ResumeTimeReached) => {
            reveal_strlit("Event::NewEvents(");
            reveal_strlit("ResumeTimeReached");
            reveal_strlit(")");
            reveal_strlit("Event::NewEvents(ResumeTimeReached)");
            assert("Event::NewEvents("@ + "ResumeTimeReached"@ + ")"@ =~= "Event::NewEvents(ResumeTimeReached)"@);
        },
        EventKind::NewEvents(StartCause::WaitCancelled) => {
            reveal_strlit("Event::NewEvents(");
            reveal_strlit("WaitCancelled");
            reveal_strlit(")");
            reveal_strlit("Event::NewEvents(WaitCancelled)");
            assert("Event::NewEvents("@ + "WaitCancelled"@ + ")"@ =~= "Event::NewEvents(WaitCancelled)"@);
        },
        EventKind::NewEvents(StartCause::Poll) => {
            reveal_strlit("Event::NewEvents(");
            reveal_strlit("Pool");
            reveal_strlit(")");
            reveal_strlit("Event::NewEvents(Pool)");
            assert("Event::NewEvents("@ + "Pool"@ + ")"@ =~= "Event::NewEvents(Pool)"@);
        },
        EventKind::NewEvents(StartCause::Init) => {
            reveal_strlit("Event::NewEvents(");
            reveal_strlit("Init");
            reveal_strlit(")");
            reveal_strlit("Event::NewEvents(Init)");
            assert("Event::NewEvents("@ + "Init"@ + ")"@ =~= "Event::NewEvents(Init)"@);
        },
        EventKind::WindowEvent(WindowEventKind::Resized) => {
            reveal_strlit("WindowEvent::");
            reveal_strlit("Resized");
            reveal_strlit("WindowEvent::Resized");
            assert("WindowEvent::"@ + "Resized"@ =~= "WindowEvent::Resized"@);
        },
        EventKind::WindowEvent(WindowEventKind::Moved) => {
            reveal_strlit("WindowEvent::");
            reveal_strlit("Moved");
            reveal_strlit("WindowEvent::Moved");
            assert("WindowEvent::"@ + "Moved"@ =~= "WindowEvent::Moved"@);
        },
        EventKind::WindowEvent(WindowEventKind::CloseRequested) => {
            reveal_strlit("WindowEvent::");
            reveal_strlit("CloseRequested");
            reveal_strlit("WindowEvent::CloseRequested");
            assert("WindowEvent::"@ + "CloseRequested"@ =~= "WindowEvent::CloseRequested"@);
        },
        EventKind::WindowEvent(WindowEventKind::Destroyed) => {
            reveal_strlit("WindowEvent::");
            reveal_strlit("Destroyed");
            reveal_strlit("WindowEvent::Destroyed");
            assert("WindowEvent::"@ + "Destroyed"@ =~= "WindowEvent::Destroyed"@);
        },
        EventKind::WindowEvent(WindowEventKind::DroppedFile) => {
            reveal_strlit("WindowEvent::");
            reveal_strlit("DroppedFile");
            reveal_strlit("WindowEvent::DroppedFile");
            assert("WindowEvent::"@ + "DroppedFile"@ =~= "WindowEvent::DroppedFile"@);
        },
        EventKind::WindowEvent(WindowEventKind::HoveredFile) => {
            reveal_strlit("WindowEvent::");
            reveal_strlit("HoveredFile");
            reveal_strlit("WindowEvent::HoveredFile");
            assert("WindowEvent::"@ + "HoveredFile"@ =~= "WindowEvent::HoveredFile"@);
        },
        EventKind::WindowEvent(WindowEventKind::HoveredFileCancelled) => {
            reveal_strlit("WindowEvent::");
            reveal_strlit("HoveredFileCancelled");
            reveal_strlit("WindowEvent::HoveredFileCancelled");
            assert("WindowEvent::"@ + "HoveredFileCancelled"@ =~= "WindowEvent::HoveredFileCancelled"@);
        },
        EventKind::WindowEvent(WindowEventKind::ReceivedCharacter) => {
            reveal_strlit("WindowEvent::");
            reveal_strlit("ReceivedCharacter");
            reveal_strlit("WindowEvent::ReceivedCharacter");
            assert("WindowEvent::"@ + "ReceivedCharacter"@ =~= "WindowEvent::ReceivedCharacter"@);
        },
        EventKind::WindowEvent(WindowEventKind::Focused) => {
            reveal_strlit("WindowEvent::");
            reveal_strlit("Focused");
            reveal_strlit("WindowEvent::Focused");
            assert("WindowEvent::"@ + "Focused"@ =~= "WindowEvent::Focused"@);
        },
        EventKind::WindowEvent(WindowEventKind::KeyboardInput) => {
            reveal_strlit("WindowEvent::");
            reveal_strlit("KeyboardInput");
            reveal_strlit("WindowEvent::KeyboardInput");
            assert("WindowEvent::"@ + "KeyboardInput"@ =~= "WindowEvent::KeyboardInput"@);
        },
        EventKind::WindowEvent(WindowEventKind::ModifiersChanged) => {
            reveal_strlit("WindowEvent::");
            reveal_strlit("ModifiersChanged");
            reveal_strlit("WindowEvent::ModifiersChanged");
            assert("WindowEvent::"@ + "ModifiersChanged"@ =~= "WindowEvent::ModifiersChanged"@);
        },
        EventKind::WindowEvent(WindowEventKind::CursorMoved) => {
            reveal_strlit("WindowEvent::");
            reveal_strlit("CursorMoved");
            reveal_strlit("WindowEvent::CursorMoved");
            assert("WindowEvent::"@ + "CursorMoved"@ =~= "WindowEvent::CursorMoved"@);
        },
        EventKind::WindowEvent(WindowEventKind::CursorEntered) => {
            reveal_strlit("WindowEvent::");
            reveal_strlit("CursorEntered");
            reveal_strlit("WindowEvent::CursorEntered");
            assert("WindowEvent::"@ + "CursorEntered"@ =~= "WindowEvent::CursorEntered"@);
        },
        EventKind::WindowEvent(WindowEventKind::CursorLeft) => {
            reveal_strlit("WindowEvent::");
            reveal_strlit("CursorLeft");
            reveal_strlit("WindowEvent::CursorLeft");
            assert("WindowEvent::"@ + "CursorLeft"@ =~= "WindowEvent::CursorLeft"@);
        },
        EventKind::WindowEvent(WindowEventKind::MouseWheel) => {
            reveal_strlit("WindowEvent::");
            reveal_strlit("MouseWheel");
            reveal_strlit("WindowEvent::MouseWheel");
            assert("WindowEvent::"@ + "MouseWheel"@ =~= "WindowEvent::MouseWheel"@);
        },
        EventKind::WindowEvent(WindowEventKind::MouseInput) => {
            reveal_strlit("WindowEvent::");
            reveal_strlit("MouseInput");
            reveal_strlit("WindowEvent::MouseInput");
            assert("WindowEvent::"@ + "MouseInput"@ =~= "WindowEvent::MouseInput"@);
        },
        EventKind::WindowEvent(WindowEventKind::TouchpadPressure) => {
            reveal_strlit("WindowEvent::");
            reveal_strlit("TouchpadPressure");
            reveal_strlit("WindowEvent::TouchpadPressure");
            assert("WindowEvent::"@ + "TouchpadPressure"@ =~= "WindowEvent::TouchpadPressure"@);
        },
        EventKind::WindowEvent(WindowEventKind::AxisMotion) => {
            reveal_strlit("WindowEvent::");
            reveal_strlit("AxisMotion");
            reveal_strlit("WindowEvent::AxisMotion");
            assert("WindowEvent::"@ + "AxisMotion"@ =~= "WindowEvent::AxisMotion"@);
        },
        EventKind::WindowEvent(WindowEventKind::Touch) => {
            reveal_strlit("WindowEvent::");
            reveal_strlit("Touch");
            reveal_strlit("WindowEvent::Touch");
            assert("WindowEvent::"@ + "Touch"@ =~= "WindowEvent::Touch"@);
        },
        EventKind::WindowEvent(WindowEventKind::ScaleFactorChanged) => {
            reveal_strlit("WindowEvent::");
            reveal_strlit("ScaleFactorChanged");
            reveal_strlit("WindowEvent::ScaleFactorChanged");
            assert("WindowEvent::"@ + "ScaleFactorChanged"@ =~= "WindowEvent::ScaleFactorChanged"@);
        },
        EventKind::WindowEvent(WindowEventKind::ThemeChanged) => {
            reveal_strlit("WindowEvent::");
            reveal_strlit("ThemeChanged");
            reveal_strlit("WindowEvent::ThemeChanged");
            assert("WindowEvent::"@ + "ThemeChanged"@ =~= "WindowEvent::ThemeChanged"@);
        },
        EventKind::DeviceEvent(DeviceEventKind::Added) => {
            reveal_strlit("DeviceEvent::");
            reveal_strlit("Added");
            reveal_strlit("DeviceEvent::Added");
            assert("DeviceEvent::"@ + "Added"@ =~= "DeviceEvent::Added"@);
        },
        EventKind::DeviceEvent(DeviceEventKind::Removed) => {
            reveal_strlit("DeviceEvent::");
            reveal_strlit("Removed");
            reveal_strlit("DeviceEvent::Removed");
            assert("DeviceEvent::"@ + "Removed"@ =~= "DeviceEvent::Removed"@);
        },
        EventKind::DeviceEvent(DeviceEventKind::MouseMotion) => {
            reveal_strlit("DeviceEvent::");
            reveal_strlit("MouseMotion");
            reveal_strlit("DeviceEvent::MouseMotion");
            assert("DeviceEvent::"@ + "MouseMotion"@ =~= "DeviceEvent::MouseMotion"@);
        },
        EventKind::DeviceEvent(DeviceEventKind::MouseWheel) => {
            reveal_strlit("DeviceEvent::");
            reveal_strlit("MouseWheel");
            reveal_strlit("DeviceEvent::MouseWheel");
            assert("DeviceEvent::"@ + "MouseWheel"@ =~= "DeviceEvent::MouseWheel"@);
        },
        EventKind::DeviceEvent(DeviceEventKind::Motion) => {
            reveal_strlit("DeviceEvent::");
            reveal_strlit("Motion");
            reveal_strlit("DeviceEvent::Motion");
            assert("DeviceEvent::"@ + "Motion"@ =~= "DeviceEvent::Motion"@);
        },
        EventKind::DeviceEvent(DeviceEventKind::Button) => {
            reveal_strlit("DeviceEvent::");
            reveal_strlit("Button");
            reveal_strlit("DeviceEvent::Button");
            assert("DeviceEvent::"@ + "Button"@ =~= "DeviceEvent::Button"@);
        },
        EventKind::DeviceEvent(DeviceEventKind::Key) => {
            reveal_strlit("DeviceEvent::");
            reveal_strlit("Key");
            reveal_strlit("DeviceEvent::Key");
            assert("DeviceEvent::"@ + "Key"@ =~= "DeviceEvent::Key"@);
        },
        EventKind::DeviceEvent(DeviceEventKind::Text) => {
            reveal_strlit("DeviceEvent::");
            reveal_strlit("Text");
            reveal_strlit("DeviceEvent::Text");
            assert("DeviceEvent::"@ + "Text"@ =~= "DeviceEvent::Text"@);
        },
        _ => {},
    }
}

/// Two events are logged under one position only when they are of one kind,
/// or a redraw request and the clearing of redraw events; `NewEvents` of
/// different start causes have different positions.
pub proof fn lemma_event_name_index_distinct(e1: EventKind, e2: EventKind)
    ensures
        event_name_index(e1) == event_name_index(e2) ==> e1 == e2 || ((e1 is RedrawRequested
            || e1 is RedrawEventsCleared) && (e2 is RedrawRequested || e2 is RedrawEventsCleared)),
        event_name_index(e1) < EVENT_NAME_COUNT,
{
}

/// The name at position `k` comes before the next one.
pub open spec fn name_ascends_at(k: nat) -> bool {
    text_order(event_name_text(k), event_name_text(k + 1)) == NameOrder::Less
}

proof fn lemma_names_in_order_0()
    ensures
        text_order("DeviceEvent::Added"@, "DeviceEvent::Button"@) == NameOrder::Less,
{
    reveal_strlit("DeviceEvent::Added");
    reveal_strlit("DeviceEvent::Button");
    reveal_with_fuel(text_order, 26);
}

proof fn lemma_names_in_order_1()
    ensures
        text_order("DeviceEvent::Button"@, "DeviceEvent::Key"@) == NameOrder::Less,
{
    reveal_strlit("DeviceEvent::Button");
    reveal_strlit("DeviceEvent::Key");
    reveal_with_fuel(text_order, 26);
}

proof fn lemma_names_in_order_2()
    ensures
        text_order("DeviceEvent::Key"@, "DeviceEvent::Motion"@) == NameOrder::Less,
{
    reveal_strlit("DeviceEvent::Key");
    reveal_strlit("DeviceEvent::Motion");
    reveal_with_fuel(text_order, 26);
}

proof fn lemma_names_in_order_3()
    ensures
        text_order("DeviceEvent::Motion"@, "DeviceEvent::MouseMotion"@) == NameOrder::Less,
{
    reveal_strlit("DeviceEvent::Motion");
    reveal_strlit("DeviceEvent::MouseMotion");
    reveal_with_fuel(text_order, 26);
}

proof fn lemma_names_in_order_4()
    ensures
        text_order("DeviceEvent::MouseMotion"@, "DeviceEvent::MouseWheel"@) == NameOrder::Less,
{
    reveal_strlit("DeviceEvent::MouseMotion");
    reveal_strlit("DeviceEvent::MouseWheel");
    reveal_with_fuel(text_order, 26);
}

proof fn lemma_names_in_order_5()
    ensures
        text_order("DeviceEvent::MouseWheel"@, "DeviceEvent::Removed"@) == NameOrder::Less,
{
    reveal_strlit("DeviceEvent::MouseWheel");
    reveal_strlit("DeviceEvent::Removed");
    reveal_with_fuel(text_order, 26);
}

proof fn lemma_names_in_order_6()
    ensures
        text_order("DeviceEvent::Removed"@, "DeviceEvent::Text"@) == NameOrder::Less,
{
    reveal_strlit("DeviceEvent::Removed");
    reveal_strlit("DeviceEvent::Text");
    reveal_with_fuel(text_order, 26);
}

proof fn lemma_names_in_order_7()
    ensures
        text_order("DeviceEvent::Text"@, "Event::LoopDestroyed"@) == NameOrder::Less,
{
    reveal_strlit("DeviceEvent::Text");
    reveal_strlit("Event::LoopDestroyed");
    reveal_with_fuel(text_order, 26);
}

proof fn lemma_names_in_order_8()
    ensures
        text_order("Event::LoopDestroyed"@, "Event::MainEventsCleared"@) == NameOrder::Less,
{
    reveal_strlit("Event::LoopDestroyed");
    reveal_strlit("Event::MainEventsCleared");
    reveal_with_fuel(text_order, 26);
}

proof fn lemma_names_in_order_9()
    ensures
        text_order("Event::MainEventsCleared"@, "Event::NewEvents(Init)"@) == NameOrder::Less,
{
    reveal_strlit("Event::MainEventsCleared");
    reveal_strlit("Event::NewEvents(Init)");
    reveal_with_fuel(text_order, 26);
}

proof fn lemma_names_in_order_10()
    ensures
        text_order("Event::NewEvents(Init)"@, "Event::NewEvents(Pool)"@) == NameOrder::Less,
{
    reveal_strlit("Event::NewEvents(Init)");
    reveal_strlit("Event::NewEvents(Pool)");
    reveal_with_fuel(text_order, 26);
}

proof fn lemma_names_in_order_11()
    ensures
        text_order("Event::NewEvents(Pool)"@, "Event::NewEvents(ResumeTimeReached)"@) == NameOrder::Less,
{
    reveal_strlit("Event::NewEvents(Pool)");
    reveal_strlit("Event::NewEvents(ResumeTimeReached)");
    reveal_with_fuel(text_order, 26);
}

proof fn lemma_names_in_order_12()
    ensures
        text_order("Event::NewEvents(ResumeTimeReached)"@, "Event::NewEvents(WaitCancelled)"@) == NameOrder::Less,
{
    reveal_strlit("Event::NewEvents(ResumeTimeReached)");
    reveal_strlit("Event::NewEvents(WaitCancelled)");
    reveal_with_fuel(text_order, 26);
}

proof fn lemma_names_in_order_13()
    ensures
        text_order("Event::NewEvents(WaitCancelled)"@, "Event::RedrawEventsCleared"@) == NameOrder::Less,
{
    reveal_strlit("Event::NewEvents(WaitCancelled)");
    reveal_strlit("Event::RedrawEventsCleared");
    reveal_with_fuel(text_order, 26);
}

proof fn lemma_names_in_order_14()
    ensures
        text_order("Event::RedrawEventsCleared"@, "Event::Resumed"@) == NameOrder::Less,
{
    reveal_strlit("Event::RedrawEventsCleared");
    reveal_strlit("Event::Resumed");
    reveal_with_fuel(text_order, 26);
}

proof fn lemma_names_in_order_15()
    ensures
        text_order("Event::Resumed"@, "Event::Suspended"@) == NameOrder::Less,
{
    reveal_strlit("Event::Resumed");
    reveal_strlit("Event::Suspended");
    reveal_with_fuel(text_order, 26);
}

proof fn lemma_names_in_order_16()
    ensures
        text_order("Event::Suspended"@, "Event::UserEvent"@) == NameOrder::Less,
{
    reveal_strlit("Event::Suspended");
    reveal_strlit("Event::UserEvent");
    reveal_with_fuel(text_order, 26);
}

proof fn lemma_names_in_order_17()
    ensures
        text_order("Event::UserEvent"@, "WindowEvent::AxisMotion"@) == NameOrder::Less,
{
    reveal_strlit("Event::UserEvent");
    reveal_strlit("WindowEvent::AxisMotion");
    reveal_with_fuel(text_order, 26);
}

proof fn lemma_names_in_order_18()
    ensures
        text_order("WindowEvent::AxisMotion"@, "WindowEvent::CloseRequested"@) == NameOrder::Less,
{
    reveal_strlit("WindowEvent::AxisMotion");
    reveal_strlit("WindowEvent::CloseRequested");
    reveal_with_fuel(text_order, 26);
}

proof fn lemma_names_in_order_19()
    ensures
        text_order("WindowEvent::CloseRequested"@, "WindowEvent::CursorEntered"@) == NameOrder::Less,
{
    reveal_strlit("WindowEvent::CloseRequested");
    reveal_strlit("WindowEvent::CursorEntered");
    reveal_with_fuel(text_order, 26);
}

proof fn lemma_names_in_order_20()
    ensures
        text_order("WindowEvent::CursorEntered"@, "WindowEvent::CursorLeft"@) == NameOrder::Less,
{
    reveal_strlit("WindowEvent::CursorEntered");
    reveal_strlit("WindowEvent::CursorLeft");
    reveal_with_fuel(text_order, 26);
}

proof fn lemma_names_in_order_21()
    ensures
        text_order("WindowEvent::CursorLeft"@, "WindowEvent::CursorMoved"@) == NameOrder::Less,
{
    reveal_strlit("WindowEvent::CursorLeft");
    reveal_strlit("WindowEvent::CursorMoved");
    reveal_with_fuel(text_order, 26);
}

proof fn lemma_names_in_order_22()
    ensures
        text_order("WindowEvent::CursorMoved"@, "WindowEvent::Destroyed"@) == NameOrder::Less,
{
    reveal_strlit("WindowEvent::CursorMoved");
    reveal_strlit("WindowEvent::Destroyed");
    reveal_with_fuel(text_order, 26);
}

proof fn lemma_names_in_order_23()
    ensures
        text_order("WindowEvent::Destroyed"@, "WindowEvent::DroppedFile"@) == NameOrder::Less,
{
    reveal_strlit("WindowEvent::Destroyed");
    reveal_strlit("WindowEvent::DroppedFile");
    reveal_with_fuel(text_order, 26);
}

proof fn lemma_names_in_order_24()
    ensures
        text_order("WindowEvent::DroppedFile"@, "WindowEvent::Focused"@) == NameOrder::Less,
{
    reveal_strlit("WindowEvent::DroppedFile");
    reveal_strlit("WindowEvent::Focused");
    reveal_with_fuel(text_order, 26);
}

proof fn lemma_names_in_order_25()
    ensures
        text_order("WindowEvent::Focused"@, "WindowEvent::HoveredFile"@) == NameOrder::Less,
{
    reveal_strlit("WindowEvent::Focused");
    reveal_strlit("WindowEvent::HoveredFile");
    reveal_with_fuel(text_order, 26);
}

proof fn lemma_names_in_order_26()
    ensures
        text_order("WindowEvent::HoveredFile"@, "WindowEvent::HoveredFileCancelled"@) == NameOrder::Less,
{
    reveal_strlit("WindowEvent::HoveredFile");
    reveal_strlit("WindowEvent::HoveredFileCancelled");
    reveal_with_fuel(text_order, 26);
}

proof fn lemma_names_in_order_27()
    ensures
        text_order("WindowEvent::HoveredFileCancelled"@, "WindowEvent::KeyboardInput"@) == NameOrder::Less,
{
    reveal_strlit("WindowEvent::HoveredFileCancelled");
    reveal_strlit("WindowEvent::KeyboardInput");
    reveal_with_fuel(text_order, 26);
}

proof fn lemma_names_in_order_28()
    ensures
        text_order("WindowEvent::KeyboardInput"@, "WindowEvent::ModifiersChanged"@) == NameOrder::Less,
{
    reveal_strlit("WindowEvent::KeyboardInput");
    reveal_strlit("WindowEvent::ModifiersChanged");
    reveal_with_fuel(text_order, 26);
}

proof fn lemma_names_in_order_29()
    ensures
        text_order("WindowEvent::ModifiersChanged"@, "WindowEvent::MouseInput"@) == NameOrder::Less,
{
    reveal_strlit("WindowEvent::ModifiersChanged");
    reveal_strlit("WindowEvent::MouseInput");
    reveal_with_fuel(text_order, 26);
}

proof fn lemma_names_in_order_30()
    ensures
        text_order("WindowEvent::MouseInput"@, "WindowEvent::MouseWheel"@) == NameOrder::Less,
{
    reveal_strlit("WindowEvent::MouseInput");
    reveal_strlit("WindowEvent::MouseWheel");
    reveal_with_fuel(text_order, 26);
}

proof fn lemma_names_in_order_31()
    ensures
        text_order("WindowEvent::MouseWheel"@, "WindowEvent::Moved"@) == NameOrder::Less,
{
    reveal_strlit("WindowEvent::MouseWheel");
    reveal_strlit("WindowEvent::Moved");
    reveal_with_fuel(text_order, 26);
}

proof fn lemma_names_in_order_32()
    ensures
        text_order("WindowEvent::Moved"@, "WindowEvent::ReceivedCharacter"@) == NameOrder::Less,
{
    reveal_strlit("WindowEvent::Moved");
    reveal_strlit("WindowEvent::ReceivedCharacter");
    reveal_with_fuel(text_order, 26);
}

proof fn lemma_names_in_order_33()
    ensures
        text_order("WindowEvent::ReceivedCharacter"@, "WindowEvent::Resized"@) == NameOrder::Less,
{
    reveal_strlit("WindowEvent::ReceivedCharacter");
    reveal_strlit("WindowEvent::Resized");
    reveal_with_fuel(text_order, 26);
}

proof fn lemma_names_in_order_34()
    ensures
        text_order("WindowEvent::Resized"@, "WindowEvent::ScaleFactorChanged"@) == NameOrder::Less,
{
    reveal_strlit("WindowEvent::Resized");
    reveal_strlit("WindowEvent::ScaleFactorChanged");
    reveal_with_fuel(text_order, 26);
}

proof fn lemma_names_in_order_35()
    ensures
        text_order("WindowEvent::ScaleFactorChanged"@, "WindowEvent::ThemeChanged"@) == NameOrder::Less,
{
    reveal_strlit("WindowEvent::ScaleFactorChanged");
    reveal_strlit("WindowEvent::ThemeChanged");
    reveal_with_fuel(text_order, 26);
}

proof fn lemma_names_in_order_36()
    ensures
        text_order("WindowEvent::ThemeChanged"@, "WindowEvent::Touch"@) == NameOrder::Less,
{
    reveal_strlit("WindowEvent::ThemeChanged");
    reveal_strlit("WindowEvent::Touch");
    reveal_with_fuel(text_order, 26);
}

proof fn lemma_names_in_order_37()
    ensures
        text_order("WindowEvent::Touch"@, "WindowEvent::TouchpadPressure"@) == NameOrder::Less,
{
    reveal_strlit("WindowEvent::Touch");
    reveal_strlit("WindowEvent::TouchpadPressure");
    reveal_with_fuel(text_order, 26);
}

proof fn lemma_name_ascends_from_0(k: nat)
    requires
        0 <= k < 5,
    ensures
        name_ascends_at(k),
{
    if k == 0 {
        lemma_names_in_order_0();
        assert(event_name_text(k) == "DeviceEvent::Added"@);
        assert(event_name_text(k + 1) == "DeviceEvent::Button"@);
    } else if k == 1 {
        lemma_names_in_order_1();
        assert(event_name_text(k) == "DeviceEvent::Button"@);
        assert(event_name_text(k + 1) == "DeviceEvent::Key"@);
    } else if k == 2 {
        lemma_names_in_order_2();
        assert(event_name_text(k) == "DeviceEvent::Key"@);
        assert(event_name_text(k + 1) == "DeviceEvent::Motion"@);
    } else if k == 3 {
        lemma_names_in_order_3();
        assert(event_name_text(k) == "DeviceEvent::Motion"@);
        assert(event_name_text(k + 1) == "DeviceEvent::MouseMotion"@);
    } else if k == 4 {
        lemma_names_in_order_4();
        assert(event_name_text(k) == "DeviceEvent::MouseMotion"@);
        assert(event_name_text(k + 1) == "DeviceEvent::MouseWheel"@);
    }
}

proof fn lemma_name_ascends_from_5(k: nat)
    requires
        5 <= k < 10,
    ensures
        name_ascends_at(k),
{
    if k == 5 {
        lemma_names_in_order_5();
        assert(event_name_text(k) == "DeviceEvent::MouseWheel"@);
        assert(event_name_text(k + 1) == "DeviceEvent::Removed"@);
    } else if k == 6 {
        lemma_names_in_order_6();
        assert(event_name_text(k) == "DeviceEvent::Removed"@);
        assert(event_name_text(k + 1) == "DeviceEvent::Text"@);
    } else if k == 7 {
        lemma_names_in_order_7();
        assert(event_name_text(k) == "DeviceEvent::Text"@);
        assert(event_name_text(k + 1) == "Event::LoopDestroyed"@);
    } else if k == 8 {
        lemma_names_in_order_8();
        assert(event_name_text(k) == "Event::LoopDestroyed"@);
        assert(event_name_text(k + 1) == "Event::MainEventsCleared"@);
    } else if k == 9 {
        lemma_names_in_order_9();
        assert(event_name_text(k) == "Event::MainEventsCleared"@);
        assert(event_name_text(k + 1) == "Event::NewEvents(Init)"@);
    }
}

proof fn lemma_name_ascends_from_10(k: nat)
    requires
        10 <= k < 15,
    ensures
        name_ascends_at(k),
{
    if k == 10 {
        lemma_names_in_order_10();
        assert(event_name_text(k) == "Event::NewEvents(Init)"@);
        assert(event_name_text(k + 1) == "Event::NewEvents(Pool)"@);
    } else if k == 11 {
        lemma_names_in_order_11();
        assert(event_name_text(k) == "Event::NewEvents(Pool)"@);
        assert(event_name_text(k + 1) == "Event::NewEvents(ResumeTimeReached)"@);
    } else if k == 12 {
        lemma_names_in_order_12();
        assert(event_name_text(k) == "Event::NewEvents(ResumeTimeReached)"@);
        assert(event_name_text(k + 1) == "Event::NewEvents(WaitCancelled)"@);
    } else if k == 13 {
        lemma_names_in_order_13();
        assert(event_name_text(k) == "Event::NewEvents(WaitCancelled)"@);
        assert(event_name_text(k + 1) == "Event::RedrawEventsCleared"@);
    } else if k == 14 {
        lemma_names_in_order_14();
        assert(event_name_text(k) == "Event::RedrawEventsCleared"@);
        assert(event_name_text(k + 1) == "Event::Resumed"@);
    }
}

proof fn lemma_name_ascends_from_15(k: nat)
    requires
        15 <= k < 20,
    ensures
        name_ascends_at(k),
{
    if k == 15 {
        lemma_names_in_order_15();
        assert(event_name_text(k) == "Event::Resumed"@);
        assert(event_name_text(k + 1) == "Event::Suspended"@);
    } else if k == 16 {
        lemma_names_in_order_16();
        assert(event_name_text(k) == "Event::Suspended"@);
        assert(event_name_text(k + 1) == "Event::UserEvent"@);
    } else if k == 17 {
        lemma_names_in_order_17();
        assert(event_name_text(k) == "Event::UserEvent"@);
        assert(event_name_text(k + 1) == "WindowEvent::AxisMotion"@);
    } else if k == 18 {
        lemma_names_in_order_18();
        assert(event_name_text(k) == "WindowEvent::AxisMotion"@);
        assert(event_name_text(k + 1) == "WindowEvent::CloseRequested"@);
    } else if k == 19 {
        lemma_names_in_order_19();
        assert(event_name_text(k) == "WindowEvent::CloseRequested"@);
        assert(event_name_text(k + 1) == "WindowEvent::CursorEntered"@);
    }
}

proof fn lemma_name_ascends_from_20(k: nat)
    requires
        20 <= k < 25,
    ensures
        name_ascends_at(k),
{
    if k == 20 {
        lemma_names_in_order_20();
        assert(event_name_text(k) == "WindowEvent::CursorEntered"@);
        assert(event_name_text(k + 1) == "WindowEvent::CursorLeft"@);
    } else if k == 21 {
        lemma_names_in_order_21();
        assert(event_name_text(k) == "WindowEvent::CursorLeft"@);
        assert(event_name_text(k + 1) == "WindowEvent::CursorMoved"@);
    } else if k == 22 {
        lemma_names_in_order_22();
        assert(event_name_text(k) == "WindowEvent::CursorMoved"@);
        assert(event_name_text(k + 1) == "WindowEvent::Destroyed"@);
    } else if k == 23 {
        lemma_names_in_order_23();
        assert(event_name_text(k) == "WindowEvent::Destroyed"@);
        assert(event_name_text(k + 1) == "WindowEvent::DroppedFile"@);
    } else if k == 24 {
        lemma_names_in_order_24();
        assert(event_name_text(k) == "WindowEvent::DroppedFile"@);
        assert(event_name_text(k + 1) == "WindowEvent::Focused"@);
    }
}

proof fn lemma_name_ascends_from_25(k: nat)
    requires
        25 <= k < 30,
    ensures
        name_ascends_at(k),
{
    if k == 25 {
        lemma_names_in_order_25();
        assert(event_name_text(k) == "WindowEvent::Focused"@);
        assert(event_name_text(k + 1) == "WindowEvent::HoveredFile"@);
    } else if k == 26 {
        lemma_names_in_order_26();
        assert(event_name_text(k) == "WindowEvent::HoveredFile"@);
        assert(event_name_text(k + 1) == "WindowEvent::HoveredFileCancelled"@);
    } else if k == 27 {
        lemma_names_in_order_27();
        assert(event_name_text(k) == "WindowEvent::HoveredFileCancelled"@);
        assert(event_name_text(k + 1) == "WindowEvent::KeyboardInput"@);
    } else if k == 28 {
        lemma_names_in_order_28();
        assert(event_name_text(k) == "WindowEvent::KeyboardInput"@);
        assert(event_name_text(k + 1) == "WindowEvent::ModifiersChanged"@);
    } else if k == 29 {
        lemma_names_in_order_29();
        assert(event_name_text(k) == "WindowEvent::ModifiersChanged"@);
        assert(event_name_text(k + 1) == "WindowEvent::MouseInput"@);
    }
}

proof fn lemma_name_ascends_from_30(k: nat)
    requires
        30 <= k < 35,
    ensures
        name_ascends_at(k),
{
    if k == 30 {
        lemma_names_in_order_30();
        assert(event_name_text(k) == "WindowEvent::MouseInput"@);
        assert(event_name_text(k + 1) == "WindowEvent::MouseWheel"@);
    } else if k == 31 {
        lemma_names_in_order_31();
        assert(event_name_text(k) == "WindowEvent::MouseWheel"@);
        assert(event_name_text(k + 1) == "WindowEvent::Moved"@);
    } else if k == 32 {
        lemma_names_in_order_32();
        assert(event_name_text(k) == "WindowEvent::Moved"@);
        assert(event_name_text(k + 1) == "WindowEvent::ReceivedCharacter"@);
    } else if k == 33 {
        lemma_names_in_order_33();
        assert(event_name_text(k) == "WindowEvent::ReceivedCharacter"@);
        assert(event_name_text(k + 1) == "WindowEvent::Resized"@);
    } else if k == 34 {
        lemma_names_in_order_34();
        assert(event_name_text(k) == "WindowEvent::Resized"@);
        assert(event_name_text(k + 1) == "WindowEvent::ScaleFactorChanged"@);
    }
}

proof fn lemma_name_ascends_from_35(k: nat)
    requires
        35 <= k < 38,
    ensures
        name_ascends_at(k),
{
    if k == 35 {
        lemma_names_in_order_35();
        assert(event_name_text(k) == "WindowEvent::ScaleFactorChanged"@);
        assert(event_name_text(k + 1) == "WindowEvent::ThemeChanged"@);
    } else if k == 36 {
        lemma_names_in_order_36();
        assert(event_name_text(k) == "WindowEvent::ThemeChanged"@);
        assert(event_name_text(k + 1) == "WindowEvent::Touch"@);
    } else if k == 37 {
        lemma_names_in_order_37();
        assert(event_name_text(k) == "WindowEvent::Touch"@);
        assert(event_name_text(k + 1) == "WindowEvent::TouchpadPressure"@);
    }
}

proof fn lemma_names_ascend_between(i: nat, j: nat)
    requires
        i < j < EVENT_NAME_COUNT,
    ensures
        text_order(event_name_text(i), event_name_text(j)) == NameOrder::Less,
    decreases j - i,
{
    let p = (j - 1) as nat;
    if p < 5 {
        lemma_name_ascends_from_0(p);
    } else if p < 10 {
        lemma_name_ascends_from_5(p);
    } else if p < 15 {
        lemma_name_ascends_from_10(p);
    } else if p < 20 {
        lemma_name_ascends_from_15(p);
    } else if p < 25 {
        lemma_name_ascends_from_20(p);
    } else if p < 30 {
        lemma_name_ascends_from_25(p);
    } else if p < 35 {
        lemma_name_ascends_from_30(p);
    } else {
        lemma_name_ascends_from_35(p);
    }
    if i < p {
        lemma_names_ascend_between(i, p);
        lemma_text_order_transitive(event_name_text(i), event_name_text(p), event_name_text(j));
    }
}

/// The event names ascend strictly, character by character, so no two
/// positions hold the same name.
pub proof fn lemma_event_names_ascending(i: nat, j: nat)
    requires
        i < j < EVENT_NAME_COUNT,
    ensures
        text_order(event_name_text(i), event_name_text(j)) == NameOrder::Less,
        event_name_text(i) != event_name_text(j),
{
    lemma_names_ascend_between(i, j);
    lemma_text_order_antisymmetric(event_name_text(i), event_name_text(j));
}

/// Events of different kinds are logged under different names; the one
/// exception is a redraw request, logged as the clearing of redraw events.
pub proof fn lemma_distinct_kinds_distinct_names(e1: EventKind, e2: EventKind)
    ensures
        event_name_text(event_name_index(e1)) == event_name_text(event_name_index(e2)) ==> e1 == e2 || ((e1 is RedrawRequested || e1 is RedrawEventsCleared)
            && (e2 is RedrawRequested || e2 is RedrawEventsCleared)),
{
    let (i, j) = (event_name_index(e1), event_name_index(e2));
    lemma_event_name_index_distinct(e1, e2);
    lemma_event_name_index_distinct(e2, e1);
    if i < j {
        lemma_event_names_ascending(i, j);
    } else if j < i {
        lemma_event_names_ascending(j, i);
    }
}

} // verus!
