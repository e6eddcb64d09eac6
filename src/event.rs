use vstd::prelude::*;

use crate::session::{AsRawSs, RawSs};

verus! {

/// Event types of the native layer.
#[derive(Debug, Clone, Copy, PartialEq, Eq, Structural, PartialOrd, Ord, Hash)]
pub enum EventKind {
    /// An asynchronous operation has completed.
    IoCompletion,
    /// A trigger interrupt was received from the device.
    Trig,
    /// A service request was received from the device or interface.
    ServiceReq,
    /// The local controller has been sent a device clear message.
    Clear,
    /// An error condition occurred during an operation invocation.
    Exception,
}

impl EventKind {
    /// The native event type value.
    pub open spec fn spec_raw(self) -> u32 {
        match self {
            EventKind::IoCompletion => 0x3FFF2009u32,
            EventKind::Trig => 0xBFFF200Au32,
            EventKind::ServiceReq => 0x3FFF200Bu32,
            EventKind::Clear => 0x3FFF200Du32,
            EventKind::Exception => 0xBFFF200Eu32,
        }
    }

    /// The kind whose native event type value is `v`, if there is one.
    pub open spec fn spec_from_raw(v: u32) -> Option<EventKind> {
        if v == 0x3FFF2009u32 {
            Some(EventKind::IoCompletion)
        } else if v == 0xBFFF200Au32 {
            Some(EventKind::Trig)
        } else if v == 0x3FFF200Bu32 {
            Some(EventKind::ServiceReq)
        } else if v == 0x3FFF200Du32 {
            Some(EventKind::Clear)
        } else if v == 0xBFFF200Eu32 {
            Some(EventKind::Exception)
        } else {
            None
        }
    }

    pub fn raw(self) -> (r: u32)
        ensures
            r == self.spec_raw(),
    {
        match self {
            EventKind::IoCompletion => 0x3FFF2009u32,
            EventKind::Trig => 0xBFFF200Au32,
            EventKind::ServiceReq => 0x3FFF200Bu32,
            EventKind::Clear => 0x3FFF200Du32,
            EventKind::Exception => 0xBFFF200Eu32,
        }
    }

    pub fn from_raw(v: u32) -> (r: Option<EventKind>)
        ensures
            r == Self::spec_from_raw(v),
    {
        if v == 0x3FFF2009u32 {
            Some(EventKind::IoCompletion)
        } else if v == 0xBFFF200Au32 {
            Some(EventKind::Trig)
        } else if v == 0x3FFF200Bu32 {
            Some(EventKind::ServiceReq)
        } else if v == 0x3FFF200Du32 {
            Some(EventKind::Clear)
        } else if v == 0xBFFF200Eu32 {
            Some(EventKind::Exception)
        } else {
            None
        }
    }
}

/// Every event kind is found again from its native value.
pub proof fn lemma_event_kind_round_trip(k: EventKind)
    ensures
        EventKind::spec_from_raw(k.spec_raw()) == Some(k),
{
}

/// Event delivery mechanisms.
#[derive(Debug, Clone, Copy, PartialEq, Eq, Structural, PartialOrd, Ord, Hash)]
pub enum Mechanism {
    Queue,
    Handler,
    SuspendHandler,
    AllMech,
}

impl Mechanism {
    pub open spec fn spec_raw(self) -> u16 {
        match self {
            Mechanism::Queue => 1u16,
            Mechanism::Handler => 2u16,
            Mechanism::SuspendHandler => 4u16,
            Mechanism::AllMech => 0xFFFFu16,
        }
    }

    /// The native mechanism value.
    pub fn raw(self) -> (r: u16)
        ensures
            r == self.spec_raw(),
    {
        match self {
            Mechanism::Queue => 1u16,
            Mechanism::Handler => 2u16,
            Mechanism::SuspendHandler => 4u16,
            Mechanism::AllMech => 0xFFFFu16,
        }
    }
}

/// Event filter contexts.
#[derive(Debug, Clone, Copy, PartialEq, Eq, Structural, PartialOrd, Ord, Hash)]
pub enum EventFilter {
    Null,
}

impl EventFilter {
    /// The native filter value.
    pub fn raw(self) -> (r: u32)
        ensures
            r == 0,
    {
        0
    }
}

/// An event context handed over by the native layer: its handle and kind.
///
/// The native layer owns the context; this value only names it.
#[derive(Debug, PartialEq, Eq, Structural)]
pub struct Event {
    handler: RawSs,
    kind: EventKind,
}

impl Event {
    pub closed spec fn spec_kind(&self) -> EventKind {
        self.kind
    }

    pub closed spec fn spec_handler(&self) -> RawSs {
        self.handler
    }

    /// Names the event context `handler` of native type `kind`, which must be
    /// a known event type.
    pub fn new(handler: RawSs, kind: u32) -> (r: Event)
        requires
            EventKind::spec_from_raw(kind) is Some,
        ensures
            r.spec_handler() == handler,
            r.spec_kind() == EventKind::spec_from_raw(kind).unwrap(),
    {
        let k = match EventKind::from_raw(kind) {
            Some(k) => k,
            None => vstd::pervasive::unreached(),
        };
        Event { handler, kind: k }
    }

    pub fn kind(&self) -> (r: EventKind)
        ensures
            r == self.spec_kind(),
    {
        self.kind
    }
}

impl AsRawSs for Event {
    fn as_raw_ss(&self) -> RawSs {
        self.handler
    }
}

} // verus!
