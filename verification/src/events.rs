//! The typed events that serialize every state change of the dashboard.

use vstd::prelude::*;
use crate::models::ServiceStatus;

verus! {

/// What the control loop reads out of a raw terminal key event.
///
/// The terminal layer translates its raw input type into this one; any key
/// the dashboard does not interpret arrives as `Other`.
#[derive(Clone, Copy, Debug, PartialEq, Eq, Structural)]
pub enum KeyInput {
    Char(char),
    Up,
    Down,
    Enter,
    Other,
}

/// Mathematical model of an [`Event`].
pub enum EventView {
    Tick,
    Key(KeyInput),
    Mouse,
    ServiceLog(Seq<char>, Seq<char>),
    ServiceStatus(Seq<char>, ServiceStatus),
    Quit,
}

/// One message on the shared channel: a timer tick, a raw input event, a
/// log line or status transition of a named service, or the quit signal.
///
/// Events are immutable once produced; the control loop relies only on
/// their arrival order into the single channel.
#[derive(Clone, Debug)]
pub enum Event {
    Tick,
    Key(KeyInput),
    Mouse,
    ServiceLog(String, String),
    ServiceStatus(String, ServiceStatus),
    Quit,
}

impl View for Event {
    type V = EventView;

    open spec fn view(&self) -> EventView {
        match *self {
            Event::Tick => EventView::Tick,
            Event::Key(k) => EventView::Key(k),
            Event::Mouse => EventView::Mouse,
            Event::ServiceLog(ref name, ref line) => EventView::ServiceLog(name@, line@),
            Event::ServiceStatus(ref name, st) => EventView::ServiceStatus(name@, st),
            Event::Quit => EventView::Quit,
        }
    }
}

impl DeepView for Event {
    type V = EventView;

    open spec fn deep_view(&self) -> EventView {
        self@
    }
}

/// The event that reports one log line of the named service.
pub open spec fn log_event_for(e: EventView, name: Seq<char>, line: Seq<char>) -> bool {
    e == EventView::ServiceLog(name, line)
}

/// The event that moves the named service to the given status.
pub open spec fn status_event_for(e: EventView, name: Seq<char>, status: ServiceStatus) -> bool {
    e == EventView::ServiceStatus(name, status)
}

/// A status event whose payload is terminal: the process is done, well or
/// badly. `Running` and the provisional start signal are not terminal.
pub open spec fn terminal_status_event(e: EventView) -> bool {
    e matches EventView::ServiceStatus(_, st) && (st is Failed || st is Completed)
}

/// A status event that reports the service as running, whatever the pid.
pub open spec fn running_status_event(e: EventView) -> bool {
    e matches EventView::ServiceStatus(_, st) && st is Running
}

} // verus!
