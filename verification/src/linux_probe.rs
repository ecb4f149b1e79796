//! Decisions of the AT-SPI2 runtime probe: the families events are counted
//! by, the counts, and when a monitoring run counts as a pass.
use vstd::prelude::*;

verus! {

/// Monitoring time of the AT-SPI2 probe when no valid duration is given.
pub const ATSPI_DEFAULT_MONITOR_SECONDS: u64 = 8;

/// The family of an AT-SPI2 event.
#[derive(Debug, Clone, Copy, PartialEq, Eq, Structural)]
pub enum EventFamily {
    Focus,
    Object,
    Window,
    Document,
    Keyboard,
    Mouse,
    Terminal,
    Available,
    Cache,
    Listener,
    Unknown,
}

impl EventFamily {
    pub open spec fn name_spec(self) -> Seq<char> {
        match self {
            EventFamily::Focus => "focus"@,
            EventFamily::Object => "object"@,
            EventFamily::Window => "window"@,
            EventFamily::Document => "document"@,
            EventFamily::Keyboard => "keyboard"@,
            EventFamily::Mouse => "mouse"@,
            EventFamily::Terminal => "terminal"@,
            EventFamily::Available => "available"@,
            EventFamily::Cache => "cache"@,
            EventFamily::Listener => "listener"@,
            EventFamily::Unknown => "unknown"@,
        }
    }

    pub fn name(self) -> (r: &'static str)
        ensures
            r@ == self.name_spec(),
    {
        match self {
            EventFamily::Focus => "focus",
            EventFamily::Object => "object",
            EventFamily::Window => "window",
            EventFamily::Document => "document",
            EventFamily::Keyboard => "keyboard",
            EventFamily::Mouse => "mouse",
            EventFamily::Terminal => "terminal",
            EventFamily::Available => "available",
            EventFamily::Cache => "cache",
            EventFamily::Listener => "listener",
            EventFamily::Unknown => "unknown",
        }
    }
}

/// Events observed during a monitoring run, in total and for the three
/// registered families.
#[derive(Debug, Clone, Copy, PartialEq, Eq, Structural)]
pub struct EventCounts {
    pub total: u64,
    pub focus: u64,
    pub object: u64,
    pub window: u64,
}

impl EventCounts {
    pub fn new() -> (r: Self)
        ensures
            r == (EventCounts { total: 0, focus: 0, object: 0, window: 0 }),
    {
        EventCounts { total: 0, focus: 0, object: 0, window: 0 }
    }

    /// Counts one event of `family`; returns its number in the run.
    pub fn record(&mut self, family: EventFamily) -> (number: u64)
        requires
            old(self).total < u64::MAX,
            family == EventFamily::Focus ==> old(self).focus < u64::MAX,
            family == EventFamily::Object ==> old(self).object < u64::MAX,
            family == EventFamily::Window ==> old(self).window < u64::MAX,
        ensures
            final(self).total == old(self).total + 1,
            number == final(self).total,
            final(self).focus == old(self).focus + (if family == EventFamily::Focus { 1int } else { 0int }),
            final(self).object == old(self).object + (if family == EventFamily::Object { 1int } else { 0int }),
            final(self).window == old(self).window + (if family == EventFamily::Window { 1int } else { 0int }),
    {
        self.total = self.total + 1;
        match family {
            EventFamily::Focus => self.focus = self.focus + 1,
            EventFamily::Object => self.object = self.object + 1,
            EventFamily::Window => self.window = self.window + 1,
            _ => {},
        }
        self.total
    }

    /// A monitoring run passes only when at least one event was observed.
    pub fn runtime_passed(&self) -> (r: bool)
        ensures
            r == (self.total > 0),
    {
        self.total > 0
    }
}

} // verus!
