//! The generic serialization protocol, as one tree of events.
//!
//! A source value emits exactly one event; composite events carry the
//! sub-events of their elements, entries or fields. Floating-point scalars
//! are carried by the bit pattern of a binary64 number, so that a caller
//! widens a binary32 float before it builds the event. An
//! arbitrary-precision decimal payload is carried whole, since only the
//! numeric reconstruction rule consumes it.
use vstd::prelude::*;
use bigdecimal::BigDecimal;

verus! {

#[derive(Debug, PartialEq)]
pub enum Event {
    Bool(bool),
    I8(i8),
    I16(i16),
    I32(i32),
    I64(i64),
    I128(i128),
    U8(u8),
    U16(u16),
    U32(u32),
    U64(u64),
    U128(u128),
    Float(u64),
    Char(char),
    Str(String),
    Bytes(Vec<u8>),
    Unit,
    UnitStruct(String),
    AbsentOption,
    PresentOption(Box<Event>),
    UnitVariant { name: String, variant: String },
    NewtypeStruct { name: String, value: Box<Event> },
    NewtypeVariant { name: String, variant: String, value: Box<Event> },
    Sequence(Vec<Event>),
    TupleVariant { name: String, variant: String, fields: Vec<Event> },
    Mapping(Vec<(Event, Event)>),
    Struct { name: String, fields: Vec<(String, Event)> },
    StructVariant { name: String, variant: String, fields: Vec<(String, Event)> },
    Decimal(BigDecimal),
}

/// Mathematical image of an `Event`.
pub enum EventV {
    Bool(bool),
    I8(i8),
    I16(i16),
    I32(i32),
    I64(i64),
    I128(i128),
    U8(u8),
    U16(u16),
    U32(u32),
    U64(u64),
    U128(u128),
    Float(u64),
    Char(char),
    Str(Seq<char>),
    Bytes(Seq<u8>),
    Unit,
    UnitStruct(Seq<char>),
    AbsentOption,
    PresentOption(Box<EventV>),
    UnitVariant { name: Seq<char>, variant: Seq<char> },
    NewtypeStruct { name: Seq<char>, value: Box<EventV> },
    NewtypeVariant { name: Seq<char>, variant: Seq<char>, value: Box<EventV> },
    Sequence(Seq<EventV>),
    TupleVariant { name: Seq<char>, variant: Seq<char>, fields: Seq<EventV> },
    Mapping(Seq<(EventV, EventV)>),
    Struct { name: Seq<char>, fields: Seq<(Seq<char>, EventV)> },
    StructVariant { name: Seq<char>, variant: Seq<char>, fields: Seq<(Seq<char>, EventV)> },
    Decimal(BigDecimal),
}

pub open spec fn event_view(e: Event) -> EventV
    decreases e,
{
    match e {
        Event::Bool(b) => EventV::Bool(b),
        Event::I8(n) => EventV::I8(n),
        Event::I16(n) => EventV::I16(n),
        Event::I32(n) => EventV::I32(n),
        Event::I64(n) => EventV::I64(n),
        Event::I128(n) => EventV::I128(n),
        Event::U8(n) => EventV::U8(n),
        Event::U16(n) => EventV::U16(n),
        Event::U32(n) => EventV::U32(n),
        Event::U64(n) => EventV::U64(n),
        Event::U128(n) => EventV::U128(n),
        Event::Float(bits) => EventV::Float(bits),
        Event::Char(c) => EventV::Char(c),
        Event::Str(s) => EventV::Str(s@),
        Event::Bytes(bs) => EventV::Bytes(bs@),
        Event::Unit => EventV::Unit,
        Event::UnitStruct(name) => EventV::UnitStruct(name@),
        Event::AbsentOption => EventV::AbsentOption,
        Event::PresentOption(inner) => EventV::PresentOption(Box::new(event_view(*inner))),
        Event::UnitVariant { name, variant } => EventV::UnitVariant {
            name: name@,
            variant: variant@,
        },
        Event::NewtypeStruct { name, value } => EventV::NewtypeStruct {
            name: name@,
            value: Box::new(event_view(*value)),
        },
        Event::NewtypeVariant { name, variant, value } => EventV::NewtypeVariant {
            name: name@,
            variant: variant@,
            value: Box::new(event_view(*value)),
        },
        Event::Sequence(items) => EventV::Sequence(events_view(items@)),
        Event::TupleVariant { name, variant, fields } => EventV::TupleVariant {
            name: name@,
            variant: variant@,
            fields: events_view(fields@),
        },
        Event::Mapping(pairs) => EventV::Mapping(event_pairs_view(pairs@)),
        Event::Struct { name, fields } => EventV::Struct {
            name: name@,
            fields: event_fields_view(fields@),
        },
        Event::StructVariant { name, variant, fields } => EventV::StructVariant {
            name: name@,
            variant: variant@,
            fields: event_fields_view(fields@),
        },
        Event::Decimal(d) => EventV::Decimal(d),
    }
}

pub open spec fn events_view(s: Seq<Event>) -> Seq<EventV>
    decreases s,
{
    if s.len() == 0 {
        Seq::empty()
    } else {
        seq![event_view(s[0])] + events_view(s.subrange(1, s.len() as int))
    }
}

pub open spec fn event_pairs_view(s: Seq<(Event, Event)>) -> Seq<(EventV, EventV)>
    decreases s,
{
    if s.len() == 0 {
        Seq::empty()
    } else {
        seq![(event_view(s[0].0), event_view(s[0].1))] + event_pairs_view(
            s.subrange(1, s.len() as int),
        )
    }
}

pub open spec fn event_fields_view(s: Seq<(String, Event)>) -> Seq<(Seq<char>, EventV)>
    decreases s,
{
    if s.len() == 0 {
        Seq::empty()
    } else {
        seq![(s[0].0@, event_view(s[0].1))] + event_fields_view(s.subrange(1, s.len() as int))
    }
}

impl View for Event {
    type V = EventV;

    open spec fn view(&self) -> EventV {
        event_view(*self)
    }
}

/// The image of a sequence of events has the same length and maps each
/// element in place.
pub proof fn lemma_events_view_index(s: Seq<Event>, i: int)
    requires
        0 <= i < s.len(),
    ensures
        events_view(s).len() == s.len(),
        events_view(s)[i] == event_view(s[i]),
    decreases s,
{
    lemma_events_view_len(s);
    if i > 0 {
        lemma_events_view_index(s.subrange(1, s.len() as int), i - 1);
    }
}

pub proof fn lemma_events_view_len(s: Seq<Event>)
    ensures
        events_view(s).len() == s.len(),
    decreases s,
{
    if s.len() > 0 {
        lemma_events_view_len(s.subrange(1, s.len() as int));
    }
}



pub proof fn lemma_event_fields_view_index(s: Seq<(String, Event)>, i: int)
    requires
        0 <= i < s.len(),
    ensures
        event_fields_view(s).len() == s.len(),
        event_fields_view(s)[i] == (s[i].0@, event_view(s[i].1)),
    decreases s,
{
    lemma_event_fields_view_len(s);
    if i > 0 {
        lemma_event_fields_view_index(s.subrange(1, s.len() as int), i - 1);
    }
}

pub proof fn lemma_event_fields_view_len(s: Seq<(String, Event)>)
    ensures
        event_fields_view(s).len() == s.len(),
    decreases s,
{
    if s.len() > 0 {
        lemma_event_fields_view_len(s.subrange(1, s.len() as int));
    }
}

} // verus!
