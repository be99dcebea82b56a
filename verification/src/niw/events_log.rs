//! Names of event-loop events and a log that counts them by name.

use vstd::prelude::*;

verus! {

/// Why the event loop woke up.
#[derive(Clone, Copy, PartialEq, Eq, Structural, Debug)]
pub enum StartCause {
    ResumeTimeReached,
    WaitCancelled,
    Poll,
    Init,
}

/// Kind of an event that concerns a window.
#[derive(Clone, Copy, PartialEq, Eq, Structural, Debug)]
pub enum WindowEventKind {
    Resized,
    Moved,
    CloseRequested,
    Destroyed,
    DroppedFile,
    HoveredFile,
    HoveredFileCancelled,
    ReceivedCharacter,
    Focused,
    KeyboardInput,
    ModifiersChanged,
    CursorMoved,
    CursorEntered,
    CursorLeft,
    MouseWheel,
    MouseInput,
    TouchpadPressure,
    AxisMotion,
    Touch,
    ScaleFactorChanged,
    ThemeChanged,
}

/// Kind of an event that concerns an input device.
#[derive(Clone, Copy, PartialEq, Eq, Structural, Debug)]
pub enum DeviceEventKind {
    Added,
    Removed,
    MouseMotion,
    MouseWheel,
    Motion,
    Button,
    Key,
    Text,
}

/// Kind of an event delivered by the event loop, without its payload.
#[derive(Clone, Copy, PartialEq, Eq, Structural, Debug)]
pub enum EventKind {
    NewEvents(StartCause),
    WindowEvent(WindowEventKind),
    DeviceEvent(DeviceEventKind),
    UserEvent,
    Suspended,
    Resumed,
    MainEventsCleared,
    RedrawRequested,
    RedrawEventsCleared,
    LoopDestroyed,
}

/// Number of distinct event names.
pub const EVENT_NAME_COUNT: usize = 39;

/// Position of an event's name among all event names, in byte order of the
/// names. `RedrawRequested` and `RedrawEventsCleared` share one name.
pub open spec fn event_name_index(e: EventKind) -> nat {
    match e {
        EventKind::NewEvents(StartCause::ResumeTimeReached) => 12,
        EventKind::NewEvents(StartCause::WaitCancelled) => 13,
        EventKind::NewEvents(StartCause::Poll) => 11,
        EventKind::NewEvents(StartCause::Init) => 10,
        EventKind::WindowEvent(WindowEventKind::Resized) => 34,
        EventKind::WindowEvent(WindowEventKind::Moved) => 32,
        EventKind::WindowEvent(WindowEventKind::CloseRequested) => 19,
        EventKind::WindowEvent(WindowEventKind::Destroyed) => 23,
        EventKind::WindowEvent(WindowEventKind::DroppedFile) => 24,
        EventKind::WindowEvent(WindowEventKind::HoveredFile) => 26,
        EventKind::WindowEvent(WindowEventKind::HoveredFileCancelled) => 27,
        EventKind::WindowEvent(WindowEventKind::ReceivedCharacter) => 33,
        EventKind::WindowEvent(WindowEventKind::Focused) => 25,
        EventKind::WindowEvent(WindowEventKind::KeyboardInput) => 28,
        EventKind::WindowEvent(WindowEventKind::ModifiersChanged) => 29,
        EventKind::WindowEvent(WindowEventKind::CursorMoved) => 22,
        EventKind::WindowEvent(WindowEventKind::CursorEntered) => 20,
        EventKind::WindowEvent(WindowEventKind::CursorLeft) => 21,
        EventKind::WindowEvent(WindowEventKind::MouseWheel) => 31,
        EventKind::WindowEvent(WindowEventKind::MouseInput) => 30,
        EventKind::WindowEvent(WindowEventKind::TouchpadPressure) => 38,
        EventKind::WindowEvent(WindowEventKind::AxisMotion) => 18,
        EventKind::WindowEvent(WindowEventKind::Touch) => 37,
        EventKind::WindowEvent(WindowEventKind::ScaleFactorChanged) => 35,
        EventKind::WindowEvent(WindowEventKind::ThemeChanged) => 36,
        EventKind::DeviceEvent(DeviceEventKind::Added) => 0,
        EventKind::DeviceEvent(DeviceEventKind::Removed) => 6,
        EventKind::DeviceEvent(DeviceEventKind::MouseMotion) => 4,
        EventKind::DeviceEvent(DeviceEventKind::MouseWheel) => 5,
        EventKind::DeviceEvent(DeviceEventKind::Motion) => 3,
        EventKind::DeviceEvent(DeviceEventKind::Button) => 1,
        EventKind::DeviceEvent(DeviceEventKind::Key) => 2,
        EventKind::DeviceEvent(DeviceEventKind::Text) => 7,
        EventKind::UserEvent => 17,
        EventKind::Suspended => 16,
        EventKind::Resumed => 15,
        EventKind::MainEventsCleared => 9,
        EventKind::RedrawRequested => 14,
        EventKind::RedrawEventsCleared => 14,
        EventKind::LoopDestroyed => 8,
    }
}

/// The name at position `i` among all event names.
pub open spec fn event_name_text(i: nat) -> Seq<char> {
    if i == 0 {
        "DeviceEvent::Added"@
    } else if i == 1 {
        "DeviceEvent::Button"@
    } else if i == 2 {
        "DeviceEvent::Key"@
    } else if i == 3 {
        "DeviceEvent::Motion"@
    } else if i == 4 {
        "DeviceEvent::MouseMotion"@
    } else if i == 5 {
        "DeviceEvent::MouseWheel"@
    } else if i == 6 {
        "DeviceEvent::Removed"@
    } else if i == 7 {
        "DeviceEvent::Text"@
    } else if i == 8 {
        "Event::LoopDestroyed"@
    } else if i == 9 {
        "Event::MainEventsCleared"@
    } else if i == 10 {
        "Event::NewEvents(Init)"@
    } else if i == 11 {
        "Event::NewEvents(Pool)"@
    } else if i == 12 {
        "Event::NewEvents(ResumeTimeReached)"@
    } else if i == 13 {
        "Event::NewEvents(WaitCancelled)"@
    } else if i == 14 {
        "Event::RedrawEventsCleared"@
    } else if i == 15 {
        "Event::Resumed"@
    } else if i == 16 {
        "Event::Suspended"@
    } else if i == 17 {
        "Event::UserEvent"@
    } else if i == 18 {
        "WindowEvent::AxisMotion"@
    } else if i == 19 {
        "WindowEvent::CloseRequested"@
    } else if i == 20 {
        "WindowEvent::CursorEntered"@
    } else if i == 21 {
        "WindowEvent::CursorLeft"@
    } else if i == 22 {
        "WindowEvent::CursorMoved"@
    } else if i == 23 {
        "WindowEvent::Destroyed"@
    } else if i == 24 {
        "WindowEvent::DroppedFile"@
    } else if i == 25 {
        "WindowEvent::Focused"@
    } else if i == 26 {
        "WindowEvent::HoveredFile"@
    } else if i == 27 {
        "WindowEvent::HoveredFileCancelled"@
    } else if i == 28 {
        "WindowEvent::KeyboardInput"@
    } else if i == 29 {
        "WindowEvent::ModifiersChanged"@
    } else if i == 30 {
        "WindowEvent::MouseInput"@
    } else if i == 31 {
        "WindowEvent::MouseWheel"@
    } else if i == 32 {
        "WindowEvent::Moved"@
    } else if i == 33 {
        "WindowEvent::ReceivedCharacter"@
    } else if i == 34 {
        "WindowEvent::Resized"@
    } else if i == 35 {
        "WindowEvent::ScaleFactorChanged"@
    } else if i == 36 {
        "WindowEvent::ThemeChanged"@
    } else if i == 37 {
        "WindowEvent::Touch"@
    } else {
        "WindowEvent::TouchpadPressure"@
    }
}

/// Position of the event's name among all event names.
pub fn to_event_name_index(e: &EventKind) -> (i: usize)
    ensures
        i == event_name_index(*e),
        i < EVENT_NAME_COUNT,
{
    match e {
        EventKind::NewEvents(StartCause::ResumeTimeReached) => 12,
        EventKind::NewEvents(StartCause::WaitCancelled) => 13,
        EventKind::NewEvents(StartCause::Poll) => 11,
        EventKind::NewEvents(StartCause::Init) => 10,
        EventKind::WindowEvent(WindowEventKind::Resized) => 34,
        EventKind::WindowEvent(WindowEventKind::Moved) => 32,
        EventKind::WindowEvent(WindowEventKind::CloseRequested) => 19,
        EventKind::WindowEvent(WindowEventKind::Destroyed) => 23,
        EventKind::WindowEvent(WindowEventKind::DroppedFile) => 24,
        EventKind::WindowEvent(WindowEventKind::HoveredFile) => 26,
        EventKind::WindowEvent(WindowEventKind::HoveredFileCancelled) => 27,
        EventKind::WindowEvent(WindowEventKind::ReceivedCharacter) => 33,
        EventKind::WindowEvent(WindowEventKind::Focused) => 25,
        EventKind::WindowEvent(WindowEventKind::KeyboardInput) => 28,
        EventKind::WindowEvent(WindowEventKind::ModifiersChanged) => 29,
        EventKind::WindowEvent(WindowEventKind::CursorMoved) => 22,
        EventKind::WindowEvent(WindowEventKind::CursorEntered) => 20,
        EventKind::WindowEvent(WindowEventKind::CursorLeft) => 21,
        EventKind::WindowEvent(WindowEventKind::MouseWheel) => 31,
        EventKind::WindowEvent(WindowEventKind::MouseInput) => 30,
        EventKind::WindowEvent(WindowEventKind::TouchpadPressure) => 38,
        EventKind::WindowEvent(WindowEventKind::AxisMotion) => 18,
        EventKind::WindowEvent(WindowEventKind::Touch) => 37,
        EventKind::WindowEvent(WindowEventKind::ScaleFactorChanged) => 35,
        EventKind::WindowEvent(WindowEventKind::ThemeChanged) => 36,
        EventKind::DeviceEvent(DeviceEventKind::Added) => 0,
        EventKind::DeviceEvent(DeviceEventKind::Removed) => 6,
        EventKind::DeviceEvent(DeviceEventKind::MouseMotion) => 4,
        EventKind::DeviceEvent(DeviceEventKind::MouseWheel) => 5,
        EventKind::DeviceEvent(DeviceEventKind::Motion) => 3,
        EventKind::DeviceEvent(DeviceEventKind::Button) => 1,
        EventKind::DeviceEvent(DeviceEventKind::Key) => 2,
        EventKind::DeviceEvent(DeviceEventKind::Text) => 7,
        EventKind::UserEvent => 17,
        EventKind::Suspended => 16,
        EventKind::Resumed => 15,
        EventKind::MainEventsCleared => 9,
        EventKind::RedrawRequested => 14,
        EventKind::RedrawEventsCleared => 14,
        EventKind::LoopDestroyed => 8,
    }
}

/// The name at position `i` among all event names.
pub fn event_name(i: usize) -> (s: &'static str)
    requires
        i < EVENT_NAME_COUNT,
    ensures
        s@ == event_name_text(i as nat),
{
    if i == 0 {
        "DeviceEvent::Added"
    } else if i == 1 {
        "DeviceEvent::Button"
    } else if i == 2 {
        "DeviceEvent::Key"
    } else if i == 3 {
        "DeviceEvent::Motion"
    } else if i == 4 {
        "DeviceEvent::MouseMotion"
    } else if i == 5 {
        "DeviceEvent::MouseWheel"
    } else if i == 6 {
        "DeviceEvent::Removed"
    } else if i == 7 {
        "DeviceEvent::Text"
    } else if i == 8 {
        "Event::LoopDestroyed"
    } else if i == 9 {
        "Event::MainEventsCleared"
    } else if i == 10 {
        "Event::NewEvents(Init)"
    } else if i == 11 {
        "Event::NewEvents(Pool)"
    } else if i == 12 {
        "Event::NewEvents(ResumeTimeReached)"
    } else if i == 13 {
        "Event::NewEvents(WaitCancelled)"
    } else if i == 14 {
        "Event::RedrawEventsCleared"
    } else if i == 15 {
        "Event::Resumed"
    } else if i == 16 {
        "Event::Suspended"
    } else if i == 17 {
        "Event::UserEvent"
    } else if i == 18 {
        "WindowEvent::AxisMotion"
    } else if i == 19 {
        "WindowEvent::CloseRequested"
    } else if i == 20 {
        "WindowEvent::CursorEntered"
    } else if i == 21 {
        "WindowEvent::CursorLeft"
    } else if i == 22 {
        "WindowEvent::CursorMoved"
    } else if i == 23 {
        "WindowEvent::Destroyed"
    } else if i == 24 {
        "WindowEvent::DroppedFile"
    } else if i == 25 {
        "WindowEvent::Focused"
    } else if i == 26 {
        "WindowEvent::HoveredFile"
    } else if i == 27 {
        "WindowEvent::HoveredFileCancelled"
    } else if i == 28 {
        "WindowEvent::KeyboardInput"
    } else if i == 29 {
        "WindowEvent::ModifiersChanged"
    } else if i == 30 {
        "WindowEvent::MouseInput"
    } else if i == 31 {
        "WindowEvent::MouseWheel"
    } else if i == 32 {
        "WindowEvent::Moved"
    } else if i == 33 {
        "WindowEvent::ReceivedCharacter"
    } else if i == 34 {
        "WindowEvent::Resized"
    } else if i == 35 {
        "WindowEvent::ScaleFactorChanged"
    } else if i == 36 {
        "WindowEvent::ThemeChanged"
    } else if i == 37 {
        "WindowEvent::Touch"
    } else {
        "WindowEvent::TouchpadPressure"
    }
}

/// Name of the event's kind, as shown in the events log.
pub fn to_event_name(e: &EventKind) -> (s: &'static str)
    ensures
        s@ == event_name_text(event_name_index(*e)),
{
    event_name(to_event_name_index(e))
}

/// Counts of the events seen so far, by event name.
pub struct EventsLog {
    counts: Vec<u64>,
}

impl EventsLog {
    /// Count of each event name, indexed by the name's position.
    pub closed spec fn view(&self) -> Seq<u64> {
        self.counts@
    }

    /// The well-formedness of the log: one count per event name.
    pub closed spec fn wf(&self) -> bool {
        self.counts@.len() == EVENT_NAME_COUNT
    }

    /// An empty log: every count is zero.
    pub fn new() -> (log: Self)
        ensures
            log.wf(),
            log@ == Seq::new(EVENT_NAME_COUNT as nat, |i: int| 0u64),
    {
        let mut counts: Vec<u64> = Vec::new();
        let mut i: usize = 0;
        while i < EVENT_NAME_COUNT
            invariant
                i <= EVENT_NAME_COUNT,
                counts@ == Seq::new(i as nat, |j: int| 0u64),
            decreases EVENT_NAME_COUNT - i,
        {
            counts.push(0);
            i = i + 1;
        }
        EventsLog { counts }
    }

    /// How many events were counted under the name of `event`.
    pub fn count(&self, event: &EventKind) -> (r: u64)
        requires
            self.wf(),
        ensures
            r == self@[event_name_index(*event) as int],
    {
        self.counts[to_event_name_index(event)]
    }

    /// Counts one more event under the name of `event`.
    pub fn append(&mut self, event: &EventKind)
        requires
            old(self).wf(),
            old(self)@[event_name_index(*event) as int] < u64::MAX,
        ensures
            final(self).wf(),
            final(self)@ == old(self)@.update(
                event_name_index(*event) as int,
                (old(self)@[event_name_index(*event) as int] + 1) as u64,
            ),
    {
        let i = to_event_name_index(event);
        let n = self.counts[i];
        self.counts.set(i, n + 1);
    }

    /// One row per event name seen at least once, in name order: the name,
    /// its count, and its rate per second over `elapsed_secs` (the count
    /// itself when no whole second has elapsed).
    pub fn to_rows(&self, elapsed_secs: u64) -> (rows: Vec<(&'static str, u64, u64)>)
        requires
            self.wf(),
        ensures
            rows@.len() == self@.filter(|c: u64| c > 0).len(),
            forall|k: int|
                #![trigger rows@[k]]
                0 <= k < rows@.len() ==> {
                    let i = seen_index(self@, k);
                    &&& rows@[k].0@ == event_name_text(i as nat)
                    &&& rows@[k].1 == self@[i]
                    &&& rows@[k].2 == if elapsed_secs > 0 {
                        self@[i] / elapsed_secs
                    } else {
                        self@[i]
                    }
                },
    {
        let mut rows: Vec<(&'static str, u64, u64)> = Vec::new();
        let mut i: usize = 0;
        while i < EVENT_NAME_COUNT
            invariant
                self.wf(),
                i <= EVENT_NAME_COUNT,
                rows@.len() == self@.take(i as int).filter(|c: u64| c > 0).len(),
                forall|k: int|
                    #![trigger rows@[k]]
                    0 <= k < rows@.len() ==> {
                        let j = seen_index(self@.take(i as int), k);
                        &&& rows@[k].0@ == event_name_text(j as nat)
                        &&& 0 <= j < i
                        &&& rows@[k].1 == self@[j]
                        &&& rows@[k].2 == if elapsed_secs > 0 {
                            self@[j] / elapsed_secs
                        } else {
                            self@[j]
                        }
                    },
            decreases EVENT_NAME_COUNT - i,
        {
            let value = self.counts[i];
            proof {
                lemma_seen_prefix(self@, i as int);
                lemma_seen_index_bound(self@.take(i as int));
            }
            if value > 0 {
                let rate = if elapsed_secs > 0 {
                    value / elapsed_secs
                } else {
                    value
                };
                rows.push((event_name(i), value, rate));
            }
            i = i + 1;
        }
        proof {
            assert(self@.take(EVENT_NAME_COUNT as int) =~= self@);
        }
        rows
    }
}

/// Position in `counts` of the `k`-th non-zero count.
pub open spec fn seen_index(counts: Seq<u64>, k: int) -> int
    decreases counts.len(),
{
    if counts.len() == 0 {
        0
    } else {
        let n = counts.drop_last().filter(|c: u64| c > 0).len();
        if counts.last() > 0 && k == n {
            counts.len() - 1
        } else {
            seen_index(counts.drop_last(), k)
        }
    }
}

/// Every row position below the number of non-zero counts names a position
/// of `counts`.
pub proof fn lemma_seen_index_bound(counts: Seq<u64>)
    ensures
        forall|k: int|
            0 <= k < counts.filter(|c: u64| c > 0).len() ==> 0 <= #[trigger] seen_index(counts, k)
                < counts.len(),
    decreases counts.len(),
{
    reveal_with_fuel(Seq::filter, 1);
    if counts.len() > 0 {
        let d = counts.drop_last();
        lemma_seen_index_bound(d);
        let n = d.filter(|c: u64| c > 0).len();
        assert(counts.filter(|c: u64| c > 0).len() == n + if counts.last() > 0 { 1int } else { 0int });
        assert forall|k: int|
            0 <= k < counts.filter(|c: u64| c > 0).len() implies 0 <= #[trigger] seen_index(counts, k)
                < counts.len() by {
            if !(counts.last() > 0 && k == n) {
                assert(seen_index(counts, k) == seen_index(d, k));
            }
        }
    }
}

/// Extending a prefix by one count adds a row for it exactly when it is
/// non-zero, and leaves the earlier rows in place.
pub proof fn lemma_seen_prefix(counts: Seq<u64>, i: int)
    requires
        0 <= i < counts.len(),
    ensures
        counts.take(i + 1).filter(|c: u64| c > 0).len() == counts.take(i).filter(|c: u64| c > 0).len()
            + if counts[i] > 0 { 1int } else { 0int },
        forall|k: int|
            0 <= k < counts.take(i).filter(|c: u64| c > 0).len() ==> seen_index(counts.take(i + 1), k)
                == seen_index(counts.take(i), k),
        counts[i] > 0 ==> seen_index(counts.take(i + 1), counts.take(i).filter(|c: u64| c > 0).len() as int)
            == i,
{
    let p = counts.take(i + 1);
    assert(p.drop_last() =~= counts.take(i));
    reveal_with_fuel(Seq::filter, 1);
}

/// The count under each name position after counting `events`, in order,
/// from an empty log.
pub open spec fn counts_after(events: Seq<EventKind>) -> Seq<nat>
    decreases events.len(),
{
    if events.len() == 0 {
        Seq::new(EVENT_NAME_COUNT as nat, |i: int| 0nat)
    } else {
        let c = counts_after(events.drop_last());
        let i = event_name_index(events.last()) as int;
        c.update(i, c[i] + 1)
    }
}

/// How many of `events` go by the name at position `i`.
pub open spec fn named_count(events: Seq<EventKind>, i: nat) -> nat {
    events.filter(|e: EventKind| event_name_index(e) == i).len()
}

/// Counting events one by one from an empty log leaves, under each name,
/// the number of events that go by that name.
pub proof fn lemma_counts_are_name_counts(events: Seq<EventKind>)
    ensures
        counts_after(events).len() == EVENT_NAME_COUNT,
        forall|i: nat| i < EVENT_NAME_COUNT ==> #[trigger] counts_after(events)[i as int] == named_count(events, i),
    decreases events.len(),
{
    reveal_with_fuel(Seq::filter, 1);
    if events.len() > 0 {
        let d = events.drop_last();
        lemma_counts_are_name_counts(d);
        assert(events =~= d.push(events.last()));
        assert forall|i: nat| i < EVENT_NAME_COUNT implies #[trigger] counts_after(events)[i as int] == named_count(
            events,
            i,
        ) by {
            assert(events.drop_last() =~= d);
            assert(counts_after(d)[i as int] == named_count(d, i));
        }
    }
}

/// A new log holds the counts of no events.
pub proof fn lemma_new_log_counts()
    ensures
        counts_after(Seq::empty()).len() == EVENT_NAME_COUNT,
        forall|i: int| 0 <= i < EVENT_NAME_COUNT ==> #[trigger] counts_after(Seq::empty())[i] == 0,
{
}

/// A log that holds the counts of `events` holds, after `append(e)`, the
/// counts of `events` followed by `e`: each append raises exactly the count
/// of its event's name by one.
pub proof fn lemma_append_counts(before: Seq<u64>, events: Seq<EventKind>, e: EventKind)
    requires
        before.len() == EVENT_NAME_COUNT,
        forall|i: int| 0 <= i < EVENT_NAME_COUNT ==> #[trigger] before[i] == counts_after(events)[i],
        before[event_name_index(e) as int] < u64::MAX,
    ensures
        forall|i: int|
            0 <= i < EVENT_NAME_COUNT ==> #[trigger] before.update(
                event_name_index(e) as int,
                (before[event_name_index(e) as int] + 1) as u64,
            )[i] == counts_after(events.push(e))[i],
{
    assert(events.push(e).drop_last() =~= events);
    lemma_counts_are_name_counts(events);
}


/// Counts of a log that starts empty (as `EventsLog::new` leaves it) and
/// then has `append` called once per event of `events`, in order: `logs[k]`
/// is the log's view before the `k`-th append and `logs.last()` after the
/// last. Each count of the final log is the number of events that go by its
/// name: every append raises exactly one count, its event's, by one.
pub proof fn lemma_log_counts_events(logs: Seq<Seq<u64>>, events: Seq<EventKind>)
    requires
        logs.len() == events.len() + 1,
        logs[0] == Seq::new(EVENT_NAME_COUNT as nat, |i: int| 0u64),
        forall|k: int|
            0 <= k < events.len() ==> {
                let i = event_name_index(#[trigger] events[k]) as int;
                &&& logs[k][i] < u64::MAX
                &&& logs[k + 1] == logs[k].update(i, (logs[k][i] + 1) as u64)
            },
    ensures
        logs.last().len() == EVENT_NAME_COUNT,
        forall|i: int| 0 <= i < EVENT_NAME_COUNT ==> #[trigger] logs.last()[i] == named_count(events, i as nat),
    decreases events.len(),
{
    lemma_counts_are_name_counts(events);
    if events.len() == 0 {
    } else {
        let d = events.drop_last();
        let p = logs.drop_last();
        assert forall|k: int| 0 <= k < d.len() implies {
            let i = event_name_index(#[trigger] d[k]) as int;
            &&& p[k][i] < u64::MAX
            &&& p[k + 1] == p[k].update(i, (p[k][i] + 1) as u64)
        } by {
            assert(d[k] == events[k]);
        }
        lemma_log_counts_events(p, d);
        lemma_counts_are_name_counts(d);
        let n = events.len() - 1;
        let e = events[n];
        assert(e == events.last());
        assert(p.last() == logs[n]);
        assert(events.drop_last() =~= d);
        assert forall|i: int| 0 <= i < EVENT_NAME_COUNT implies #[trigger] logs.last()[i] == named_count(
            events,
            i as nat,
        ) by {
            assert(logs[n][i] == named_count(d, i as nat));
            assert(counts_after(d)[i] == named_count(d, i as nat));
            assert(counts_after(events)[i] == named_count(events, i as nat));
        }
    }
}

} // verus!
