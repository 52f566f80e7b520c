//! Notifications a guest sends to the host boundary, in emission order.

use vstd::prelude::*;

verus! {

/// Severity of a log record.
#[derive(Clone, Copy, Debug, PartialEq, Eq, Structural)]
pub enum LogLevel {
    Debug,
    Info,
    Warn,
    Error,
}

/// One notification to the host boundary. The host correlates tags and
/// logs with spans purely by the order of these events: a tag or log
/// event belongs to the span opened by the nearest unclosed `SpanEnter`
/// before it, or to the invocation as a whole if there is none.
#[derive(Debug)]
pub enum Event {
    /// A span was opened; carries its name.
    SpanEnter(String),
    /// The most recently opened, not yet closed span was closed.
    SpanExit,
    /// A list of `key:value` tags for the current span (or the
    /// invocation, if no span is open).
    Tags(Vec<String>),
    /// A leveled log record; the message is opaque bytes, not
    /// necessarily valid text.
    Log(LogLevel, Vec<u8>),
}

/// Mathematical image of an `Event`.
#[verifier::ext_equal]
pub enum EventV {
    SpanEnter(Seq<char>),
    SpanExit,
    Tags(Seq<Seq<char>>),
    Log(LogLevel, Seq<u8>),
}

impl View for Event {
    type V = EventV;

    open spec fn view(&self) -> EventV {
        match self {
            Event::SpanEnter(n) => EventV::SpanEnter(n@),
            Event::SpanExit => EventV::SpanExit,
            Event::Tags(ts) => EventV::Tags(ts@.map_values(|t: String| t@)),
            Event::Log(level, msg) => EventV::Log(*level, msg@),
        }
    }
}

/// All tag texts carried by a sequence of events, flattened in order.
pub open spec fn tags_of_events(evs: Seq<EventV>) -> Seq<Seq<char>>
    decreases evs.len(),
{
    if evs.len() == 0 {
        Seq::<Seq<char>>::empty()
    } else {
        (match evs[0] {
            EventV::Tags(ts) => ts,
            _ => Seq::<Seq<char>>::empty(),
        }) + tags_of_events(evs.skip(1))
    }
}

} // verus!
