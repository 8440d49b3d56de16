//! Detection events and their wire form.

use crate::wire::{
    buffer_limit, encode_field, field, field_key, field_len_capped, lemma_parse_field,
    lemma_varint_len_u64, parse_field, varint, EncodeError,
};
use vstd::prelude::*;

verus! {

/// The field number of a movement report within an event message.
pub const MOVEMENT_INFO_TAG: u32 = 1;

/// The field number of an invasion report within an event message.
pub const INVADED_INFO_TAG: u32 = 2;

/// The type of event.
#[derive(Clone, Copy, Debug, PartialEq, Eq, Structural)]
pub enum EventType {
    /// Some creatures entered the room or is moving.
    Movement,
    /// A person is confirmed that he invaded into the room.
    Invaded,
}

impl EventType {
    /// The name under which events of this type are routed.
    pub open spec fn name(self) -> Seq<char> {
        match self {
            EventType::Movement => "movement"@,
            EventType::Invaded => "invaded"@,
        }
    }

    /// The name of this type of event as a string slice.
    pub fn as_str(&self) -> (s: &'static str)
        ensures
            s@ == self.name(),
    {
        match self {
            EventType::Movement => "movement",
            EventType::Invaded => "invaded",
        }
    }

    /// The name of this type of event: `movement` or `invaded`.
    pub fn to_string(&self) -> (s: String)
        ensures
            s@ == self.name(),
    {
        String::from_str(self.as_str())
    }
}

/// What was detected. Each variant carries its report already in wire form;
/// this library never looks inside it.
#[derive(Clone, Debug, PartialEq, Eq)]
pub enum Event {
    MovementInfo(Vec<u8>),
    InvadedInfo(Vec<u8>),
}

/// An event as a mathematical value.
pub enum EventView {
    MovementInfo(Seq<u8>),
    InvadedInfo(Seq<u8>),
}

impl EventView {
    /// Which variant this is.
    pub open spec fn event_type(self) -> EventType {
        match self {
            EventView::MovementInfo(_) => EventType::Movement,
            EventView::InvadedInfo(_) => EventType::Invaded,
        }
    }

    /// The field number under which the report travels.
    pub open spec fn tag(self) -> nat {
        match self {
            EventView::MovementInfo(_) => MOVEMENT_INFO_TAG as nat,
            EventView::InvadedInfo(_) => INVADED_INFO_TAG as nat,
        }
    }

    /// The report in wire form.
    pub open spec fn body(self) -> Seq<u8> {
        match self {
            EventView::MovementInfo(body) => body,
            EventView::InvadedInfo(body) => body,
        }
    }
}

impl View for Event {
    type V = EventView;

    open spec fn view(&self) -> EventView {
        match self {
            Event::MovementInfo(body) => EventView::MovementInfo(body@),
            Event::InvadedInfo(body) => EventView::InvadedInfo(body@),
        }
    }
}

/// A detection event as it travels to the central system: one of the two
/// variants, or none where the event was never filled in.
#[derive(Clone, Debug, PartialEq, Eq)]
pub struct EventMessage {
    pub event: Option<Event>,
}

impl View for EventMessage {
    type V = Option<EventView>;

    open spec fn view(&self) -> Option<EventView> {
        match self.event {
            Some(event) => Some(event@),
            None => None,
        }
    }
}

/// The wire form of an event message: the field of the variant that is set,
/// and no byte where none is.
pub open spec fn message_wire(message: Option<EventView>) -> Seq<u8> {
    match message {
        Some(event) => field(event.tag(), event.body()),
        None => Seq::empty(),
    }
}

/// Reads an event message back from its wire form, or nothing where the bytes
/// are not the wire form of any.
pub open spec fn parse_message(bytes: Seq<u8>) -> Option<Option<EventView>> {
    if bytes.len() == 0 {
        Some(None)
    } else {
        match parse_field(bytes) {
            Some((tag, body)) => {
                if tag == MOVEMENT_INFO_TAG {
                    Some(Some(EventView::MovementInfo(body)))
                } else if tag == INVADED_INFO_TAG {
                    Some(Some(EventView::InvadedInfo(body)))
                } else {
                    None
                }
            },
            None => None,
        }
    }
}

impl EventMessage {
    /// Get the type of event.
    pub fn get_event_type(&self) -> (r: Option<EventType>)
        ensures
            r == match self@ {
                Some(event) => Some(event.event_type()),
                None => None,
            },
    {
        match &self.event {
            Some(Event::MovementInfo(_)) => Some(EventType::Movement),
            Some(Event::InvadedInfo(_)) => Some(EventType::Invaded),
            None => None,
        }
    }

    /// Encodes the message to a newly allocated buffer.
    ///
    /// Fails exactly when the wire form is longer than a buffer can be.
    pub fn encode(&self) -> (r: Result<Vec<u8>, EncodeError>)
        ensures
            match r {
                Ok(bytes) => bytes@ == message_wire(self@) && bytes@.len() <= buffer_limit(),
                Err(e) => {
                    &&& self@ matches Some(event)
                    &&& message_wire(self@).len() > buffer_limit()
                    &&& e.required == field_len_capped(event.tag(), event.body().len())
                    &&& e.remaining == buffer_limit()
                },
            },
    {
        match &self.event {
            Some(Event::MovementInfo(body)) => encode_field(MOVEMENT_INFO_TAG, body),
            Some(Event::InvadedInfo(body)) => encode_field(INVADED_INFO_TAG, body),
            None => Ok(Vec::new()),
        }
    }
}

/// Encoding loses nothing: reading the wire form of a message back gives the
/// same variant with the same report, and gives none for a message with none.
pub proof fn lemma_wire_round_trip(message: Option<EventView>)
    ensures
        parse_message(message_wire(message)) == Some(message),
{
    match message {
        Some(event) => {
            lemma_parse_field(event.tag(), event.body());
            assert(varint(field_key(event.tag())).len() >= 1);
        },
        None => {},
    }
}

/// The wire form of an event is its report and between two and eleven bytes
/// before it: one for the key, the others for the length of the report.
pub proof fn lemma_message_wire_len(message: Option<EventView>)
    requires
        message matches Some(event) ==> event.body().len() <= u64::MAX,
    ensures
        match message {
            Some(event) => event.body().len() + 2 <= message_wire(message).len()
                <= event.body().len() + 11,
            None => message_wire(message).len() == 0,
        },
{
    if let Some(event) = message {
        lemma_varint_len_u64(event.body().len());
    }
}

/// Two messages with the same wire form are the same message.
pub proof fn lemma_wire_is_injective(a: Option<EventView>, b: Option<EventView>)
    requires
        message_wire(a) == message_wire(b),
    ensures
        a == b,
{
    lemma_wire_round_trip(a);
    lemma_wire_round_trip(b);
}

} // verus!
