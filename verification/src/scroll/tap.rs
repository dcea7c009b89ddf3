use vstd::prelude::*;

verus! {

/// How many scroll events, from the first, are logged before and after their
/// transformation.
pub const LOGGED_SCROLL_EVENTS: u32 = 200;

/// The kinds of event the tap's callback tells apart.
#[derive(Debug, Clone, Copy, PartialEq, Eq, Structural)]
pub enum TapEventKind {
    ScrollWheel,
    /// The system switched the tap off because the callback was too slow.
    DisabledByTimeout,
    /// The system switched the tap off because of user input.
    DisabledByUserInput,
    Other,
}

/// What the callback does with an event.
#[derive(Debug, Clone, Copy, PartialEq, Eq, Structural)]
pub enum TapAction {
    /// Switch the tap whose port is given back on.
    Reenable(usize),
    /// Transform the scroll event.
    Transform,
    /// Transform the scroll event, logging it before and after; the number is
    /// its index among the scroll events seen.
    TransformLogged(u32),
    /// Leave the event alone.
    Ignore,
}

/// What the tap remembers between events: the port of the installed tap
/// (0 before it is installed) and how many scroll events it has seen.
#[derive(Debug, Clone, Copy, PartialEq, Eq, Structural)]
pub struct TapMonitor {
    pub port: usize,
    pub scroll_events: u32,
}

/// The counter after one more scroll event; it wraps as a `u32` counter does.
pub open spec fn next_count(n: u32) -> u32 {
    if n == u32::MAX {
        0
    } else {
        (n + 1) as u32
    }
}

/// The action for an event of `kind` seen by `monitor`.
pub open spec fn tap_action(monitor: TapMonitor, kind: TapEventKind) -> TapAction {
    match kind {
        TapEventKind::DisabledByTimeout | TapEventKind::DisabledByUserInput => {
            if monitor.port != 0 {
                TapAction::Reenable(monitor.port)
            } else {
                TapAction::Ignore
            }
        },
        TapEventKind::ScrollWheel => {
            if monitor.scroll_events < LOGGED_SCROLL_EVENTS {
                TapAction::TransformLogged(monitor.scroll_events)
            } else {
                TapAction::Transform
            }
        },
        TapEventKind::Other => TapAction::Ignore,
    }
}

/// The monitor after an event of `kind`: only scroll events are counted.
pub open spec fn tap_next(monitor: TapMonitor, kind: TapEventKind) -> TapMonitor {
    match kind {
        TapEventKind::ScrollWheel => TapMonitor {
            scroll_events: next_count(monitor.scroll_events),
            ..monitor
        },
        _ => monitor,
    }
}

impl TapMonitor {
    /// A monitor before any tap is installed and any event is seen.
    pub fn new() -> (r: TapMonitor)
        ensures
            r.port == 0,
            r.scroll_events == 0,
    {
        TapMonitor { port: 0, scroll_events: 0 }
    }

    /// Records the port of the installed tap.
    pub fn register_port(&mut self, port: usize)
        ensures
            *final(self) == (TapMonitor { port, ..*old(self) }),
            final(self).port == port,
            final(self).scroll_events == old(self).scroll_events,
    {
        self.port = port;
    }

    /// Decides what to do with an event of `kind`, and counts it.
    pub fn on_event(&mut self, kind: TapEventKind) -> (r: TapAction)
        ensures
            r == tap_action(*old(self), kind),
            *final(self) == tap_next(*old(self), kind),
            final(self).port == old(self).port,
            (kind == TapEventKind::DisabledByTimeout || kind == TapEventKind::DisabledByUserInput)
                ==> r == (if old(self).port != 0 {
                TapAction::Reenable(old(self).port)
            } else {
                TapAction::Ignore
            }) && final(self).scroll_events == old(self).scroll_events,
            kind == TapEventKind::ScrollWheel ==> r == (if old(self).scroll_events < 200 {
                TapAction::TransformLogged(old(self).scroll_events)
            } else {
                TapAction::Transform
            }) && final(self).scroll_events == (if old(self).scroll_events == u32::MAX {
                0
            } else {
                old(self).scroll_events + 1
            }),
            kind == TapEventKind::Other ==> r == TapAction::Ignore && final(self).scroll_events
                == old(self).scroll_events,
    {
        match kind {
            TapEventKind::DisabledByTimeout | TapEventKind::DisabledByUserInput => {
                if self.port != 0 {
                    TapAction::Reenable(self.port)
                } else {
                    TapAction::Ignore
                }
            },
            TapEventKind::ScrollWheel => {
                let n = self.scroll_events;
                self.scroll_events = if n == u32::MAX {
                    0
                } else {
                    n + 1
                };
                if n < LOGGED_SCROLL_EVENTS {
                    TapAction::TransformLogged(n)
                } else {
                    TapAction::Transform
                }
            },
            TapEventKind::Other => TapAction::Ignore,
        }
    }
}

/// The counter counts scroll events and nothing else, and the first
/// `LOGGED_SCROLL_EVENTS` scroll events, and only they, are logged with their
/// index.
pub proof fn lemma_scroll_counting(monitor: TapMonitor, kind: TapEventKind)
    ensures
        kind == TapEventKind::ScrollWheel && monitor.scroll_events < u32::MAX ==> tap_next(
            monitor,
            kind,
        ).scroll_events == monitor.scroll_events + 1,
        kind != TapEventKind::ScrollWheel ==> tap_next(monitor, kind) == monitor,
        kind == TapEventKind::ScrollWheel && monitor.scroll_events < 200 ==> tap_action(
            monitor,
            kind,
        ) == TapAction::TransformLogged(monitor.scroll_events),
        kind == TapEventKind::ScrollWheel && monitor.scroll_events >= 200 ==> tap_action(
            monitor,
            kind,
        ) == TapAction::Transform,
{
}

/// Every scroll event is transformed, whatever came before it, and a tap that
/// the system switched off is switched back on once its port is known.
pub proof fn lemma_scroll_always_transformed(monitor: TapMonitor, kind: TapEventKind)
    ensures
        kind == TapEventKind::ScrollWheel ==> (tap_action(monitor, kind) == TapAction::Transform
            || tap_action(monitor, kind) is TransformLogged),
        (kind == TapEventKind::DisabledByTimeout || kind == TapEventKind::DisabledByUserInput)
            && monitor.port != 0 ==> tap_action(monitor, kind) == TapAction::Reenable(
            monitor.port,
        ),
        tap_next(monitor, kind).port == monitor.port,
{
}

} // verus!
