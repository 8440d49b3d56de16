//! Message queue.
//!
//! The queue to the central system is driven from outside: this module
//! decides what is sent and what each outcome of the transport means, and
//! leaves the sending to its caller.

use crate::eventpb::{message_wire, EventMessage, EventType};
use crate::stamp::{emission_time, fresh_event_id, is_emission_time, is_event_id};
use crate::wire::{buffer_limit, field_len_capped, EncodeError};
use vstd::prelude::*;

verus! {

/// The quality of service of every message: sent once, never acknowledged.
pub const QOS: u8 = 0;

/// The property that tells how the payload is encoded.
pub open spec fn content_type() -> Seq<char> {
    "application/x-google-protobuf"@
}

/// What every topic begins with.
pub open spec fn topic_prefix() -> Seq<char> {
    "iot/events/v1/"@
}

/// The topic on which events of type `event_type` are published.
pub open spec fn topic_for(event_type: EventType) -> Seq<char> {
    topic_prefix() + event_type.name()
}

/// A property attached to a message.
#[derive(Clone, Debug, PartialEq, Eq)]
pub enum Property {
    /// The media type of the payload.
    ContentType(String),
    /// A key and a value that mean something to the applications alone.
    UserProperty(String, String),
}

/// A property as a mathematical value.
pub enum PropertyView {
    ContentType(Seq<char>),
    UserProperty(Seq<char>, Seq<char>),
}

impl PropertyView {
    /// Whether this is the user property with key `key`.
    pub open spec fn has_key(self, key: Seq<char>) -> bool {
        self matches PropertyView::UserProperty(k, _) && k == key
    }

    /// What the property says: its media type, or the value under its key.
    pub open spec fn value(self) -> Seq<char> {
        match self {
            PropertyView::ContentType(value) => value,
            PropertyView::UserProperty(_, value) => value,
        }
    }
}

impl View for Property {
    type V = PropertyView;

    open spec fn view(&self) -> PropertyView {
        match self {
            Property::ContentType(value) => PropertyView::ContentType(value@),
            Property::UserProperty(key, value) => PropertyView::UserProperty(key@, value@),
        }
    }
}

/// A list of properties as a mathematical value.
pub open spec fn properties_view(properties: Seq<Property>) -> Seq<PropertyView> {
    Seq::new(properties.len(), |i: int| properties[i]@)
}

/// A list of pairs of strings as a mathematical value.
pub open spec fn pairs_view(pairs: Seq<(String, String)>) -> Seq<(Seq<char>, Seq<char>)> {
    Seq::new(pairs.len(), |i: int| (pairs[i].0@, pairs[i].1@))
}

/// One user property for each pair, in the order of the pairs.
pub open spec fn user_properties(pairs: Seq<(Seq<char>, Seq<char>)>) -> Seq<PropertyView> {
    Seq::new(pairs.len(), |i: int| PropertyView::UserProperty(pairs[i].0, pairs[i].1))
}

/// A message that is ready to be handed to the transport.
#[derive(Clone, Debug, PartialEq, Eq)]
pub struct OutgoingMessage {
    pub topic: String,
    pub payload: Vec<u8>,
    pub properties: Vec<Property>,
    pub qos: u8,
}

/// An outgoing message as a mathematical value.
pub struct OutgoingMessageView {
    pub topic: Seq<char>,
    pub payload: Seq<u8>,
    pub properties: Seq<PropertyView>,
    pub qos: nat,
}

impl OutgoingMessageView {
    /// The identifier that the message carries.
    pub open spec fn event_id(self) -> Seq<char> {
        self.properties[1].value()
    }

    /// The time of emission that the message carries.
    pub open spec fn emitted_at(self) -> Seq<char> {
        self.properties[3].value()
    }
}

impl View for OutgoingMessage {
    type V = OutgoingMessageView;

    open spec fn view(&self) -> OutgoingMessageView {
        OutgoingMessageView {
            topic: self.topic@,
            payload: self.payload@,
            properties: properties_view(self.properties@),
            qos: self.qos as nat,
        }
    }
}

/// The properties that open every message, in their order: how the payload is
/// encoded, then the identifier of the event, the device that saw it and the
/// time at which it left.
pub open spec fn leading_properties(
    event_id: Seq<char>,
    device_id: Seq<char>,
    emitted_at: Seq<char>,
) -> Seq<PropertyView> {
    seq![
        PropertyView::ContentType(content_type()),
        PropertyView::UserProperty("event_id"@, event_id),
        PropertyView::UserProperty("device_id"@, device_id),
        PropertyView::UserProperty("emitted_at"@, emitted_at),
    ]
}

/// The message that carries `payload` for an event of type `event_type`: the
/// topic of that type, the leading properties, then one user property for
/// each pair of the trace context, at quality of service 0.
pub open spec fn outgoing(
    event_type: EventType,
    payload: Seq<u8>,
    event_id: Seq<char>,
    device_id: Seq<char>,
    emitted_at: Seq<char>,
    trace: Seq<(Seq<char>, Seq<char>)>,
) -> OutgoingMessageView {
    OutgoingMessageView {
        topic: topic_for(event_type),
        payload,
        properties: leading_properties(event_id, device_id, emitted_at) + user_properties(trace),
        qos: 0,
    }
}

impl OutgoingMessage {
    /// Puts a message together from its parts.
    pub fn new(
        event_type: EventType,
        payload: Vec<u8>,
        event_id: String,
        device_id: &str,
        emitted_at: String,
        trace: &Vec<(String, String)>,
    ) -> (message: OutgoingMessage)
        ensures
            message@ == outgoing(
                event_type,
                payload@,
                event_id@,
                device_id@,
                emitted_at@,
                pairs_view(trace@),
            ),
    {
        let topic = String::from_str("iot/events/v1/").concat(event_type.as_str());
        let mut properties: Vec<Property> = Vec::new();
        properties.push(Property::ContentType(String::from_str("application/x-google-protobuf")));
        properties.push(Property::UserProperty(String::from_str("event_id"), event_id));
        properties.push(
            Property::UserProperty(String::from_str("device_id"), String::from_str(device_id)),
        );
        properties.push(Property::UserProperty(String::from_str("emitted_at"), emitted_at));
        let ghost leading = leading_properties(event_id@, device_id@, emitted_at@);
        assert(properties_view(properties@) =~= leading);
        let mut i: usize = 0;
        while i < trace.len()
            invariant
                i <= trace.len(),
                properties_view(properties@) == leading + user_properties(
                    pairs_view(trace@).take(i as int),
                ),
            decreases trace.len() - i,
        {
            let pair = &trace[i];
            let ghost before = properties@;
            properties.push(Property::UserProperty(pair.0.clone(), pair.1.clone()));
            assert(properties_view(properties@) =~= leading + user_properties(
                pairs_view(trace@).take(i + 1),
            )) by {
                let old_view = properties_view(before);
                let new_view = properties_view(properties@);
                assert(new_view.len() == old_view.len() + 1);
                assert forall|j: int| 0 <= j < old_view.len() implies new_view[j] == old_view[j] by {
                    assert(properties@[j] == before[j]);
                }
            }
            i = i + 1;
        }
        assert(pairs_view(trace@).take(i as int) =~= pairs_view(trace@));
        OutgoingMessage { topic, payload, properties, qos: QOS }
    }
}

/// Why a call on the queue failed.
#[derive(Clone, Debug, PartialEq, Eq)]
pub enum Error {
    /// The connection to the broker was not established; the text is the
    /// transport's account of it.
    Connection(String),
    /// The event to publish has no variant set.
    NoEventGiven,
    /// The event could not be encoded to bytes.
    EncodeEvent(EncodeError),
    /// The transport did not take the message; the text is its account of it.
    Transport(String),
}

/// The message queue that sends the event to the Central system.
#[derive(Debug)]
pub struct CentralMessageQueue {
    server_uri: String,
    device_id: String,
    connected: bool,
}

/// The queue as a mathematical value.
pub struct CentralMessageQueueView {
    /// Where the broker is reached.
    pub server_uri: Seq<char>,
    /// The identity of this device, towards the broker and in every message.
    pub device_id: Seq<char>,
    /// Whether the last attempt to connect succeeded.
    pub connected: bool,
}

impl View for CentralMessageQueue {
    type V = CentralMessageQueueView;

    closed spec fn view(&self) -> CentralMessageQueueView {
        CentralMessageQueueView {
            server_uri: self.server_uri@,
            device_id: self.device_id@,
            connected: self.connected,
        }
    }
}

impl CentralMessageQueue {
    /// A queue towards the broker at `server_uri` for the device `device_id`,
    /// not yet connected.
    pub fn new(server_uri: &str, device_id: &str) -> (queue: CentralMessageQueue)
        ensures
            queue@ == (CentralMessageQueueView {
                server_uri: server_uri@,
                device_id: device_id@,
                connected: false,
            }),
    {
        CentralMessageQueue {
            server_uri: String::from_str(server_uri),
            device_id: String::from_str(device_id),
            connected: false,
        }
    }

    /// Where the broker is reached.
    pub fn server_uri(&self) -> (uri: &str)
        ensures
            uri@ == self@.server_uri,
    {
        self.server_uri.as_str()
    }

    /// The identity of this device.
    pub fn device_id(&self) -> (id: &str)
        ensures
            id@ == self@.device_id,
    {
        self.device_id.as_str()
    }

    /// Whether the queue is connected to the broker.
    pub fn is_connected(&self) -> (connected: bool)
        ensures
            connected == self@.connected,
    {
        self.connected
    }

    /// Connect to the MQTT broker.
    ///
    /// Takes what came of the transport's attempt to connect. The queue is
    /// connected from then on exactly if the attempt succeeded; a failure is
    /// handed on as [`Error::Connection`] with the transport's account.
    ///
    /// You must call this method, with success, before calling `publish`.
    pub fn connect(&mut self, outcome: Result<(), String>) -> (r: Result<(), Error>)
        ensures
            final(self)@ == (CentralMessageQueueView {
                connected: outcome is Ok,
                ..old(self)@
            }),
            match outcome {
                Ok(_) => r is Ok,
                Err(reason) => r == Err::<(), Error>(Error::Connection(reason)),
            },
    {
        match outcome {
            Ok(_) => {
                self.connected = true;
                Ok(())
            },
            Err(reason) => {
                self.connected = false;
                Err(Error::Connection(reason))
            },
        }
    }

    /// Publish the event to the specified topic.
    ///
    /// Returns the message to hand to the transport, stamped with a fresh
    /// identifier and the present time and followed by the pairs of `trace`,
    /// or the reason why there is none to send: the event has no variant
    /// set, or it is too long to encode.
    pub fn publish(&self, event: EventMessage, trace: &Vec<(String, String)>) -> (r: Result<
        OutgoingMessage,
        Error,
    >)
        requires
            self@.connected,
        ensures
            match r {
                Ok(message) => {
                    &&& event@ matches Some(detected)
                    &&& message_wire(event@).len() <= buffer_limit()
                    &&& is_event_id(message@.event_id())
                    &&& is_emission_time(message@.emitted_at())
                    &&& message@ == outgoing(
                        detected.event_type(),
                        message_wire(event@),
                        message@.event_id(),
                        self@.device_id,
                        message@.emitted_at(),
                        pairs_view(trace@),
                    )
                },
                Err(Error::NoEventGiven) => event@ is None,
                Err(Error::EncodeEvent(e)) => {
                    &&& event@ matches Some(detected)
                    &&& message_wire(event@).len() > buffer_limit()
                    &&& e.required == field_len_capped(detected.tag(), detected.body().len())
                    &&& e.remaining == buffer_limit()
                },
                Err(_) => false,
            },
    {
        let event_type = match event.get_event_type() {
            Some(event_type) => event_type,
            None => {
                return Err(Error::NoEventGiven);
            },
        };
        let event_id = fresh_event_id();
        let emitted_at = emission_time();
        let payload = match event.encode() {
            Ok(payload) => payload,
            Err(e) => {
                return Err(Error::EncodeEvent(e));
            },
        };
        let ghost id = event_id@;
        let ghost time = emitted_at@;
        let message = OutgoingMessage::new(
            event_type,
            payload,
            event_id,
            self.device_id.as_str(),
            emitted_at,
            trace,
        );
        proof {
            let leading = leading_properties(id, self@.device_id, time);
            assert(message@.properties[1] == leading[1]);
            assert(message@.properties[3] == leading[3]);
        }
        Ok(message)
    }

    /// Takes what came of handing a message to the transport: a failure is
    /// handed on as [`Error::Transport`] with the transport's account, and
    /// nothing is sent again.
    pub fn published(&self, outcome: Result<(), String>) -> (r: Result<(), Error>)
        ensures
            match outcome {
                Ok(_) => r is Ok,
                Err(reason) => r == Err::<(), Error>(Error::Transport(reason)),
            },
    {
        match outcome {
            Ok(_) => Ok(()),
            Err(reason) => Err(Error::Transport(reason)),
        }
    }
}

/// The topic of a message names the variant of its event, and nothing else:
/// `iot/events/v1/movement` for a movement, `iot/events/v1/invaded` for an
/// invasion.
pub proof fn lemma_topic_names_variant(event_type: EventType)
    ensures
        event_type == EventType::Movement <==> topic_for(event_type) == "iot/events/v1/movement"@,
        event_type == EventType::Invaded <==> topic_for(event_type) == "iot/events/v1/invaded"@,
{
    reveal_strlit("iot/events/v1/");
    reveal_strlit("movement");
    reveal_strlit("invaded");
    reveal_strlit("iot/events/v1/movement");
    reveal_strlit("iot/events/v1/invaded");
    assert(topic_for(EventType::Movement) =~= "iot/events/v1/movement"@);
    assert(topic_for(EventType::Invaded) =~= "iot/events/v1/invaded"@);
    assert("iot/events/v1/movement"@.len() != "iot/events/v1/invaded"@.len());
}

/// Every message says how its payload is encoded exactly once, first of all
/// and in the same words, whatever the event.
pub proof fn lemma_one_content_type(
    event_type: EventType,
    payload: Seq<u8>,
    event_id: Seq<char>,
    device_id: Seq<char>,
    emitted_at: Seq<char>,
    trace: Seq<(Seq<char>, Seq<char>)>,
)
    ensures
        ({
            let message = outgoing(event_type, payload, event_id, device_id, emitted_at, trace);
            &&& message.properties.len() == 4 + trace.len()
            &&& message.properties[0] == PropertyView::ContentType(
                "application/x-google-protobuf"@,
            )
            &&& forall|i: int|
                0 <= i < message.properties.len() ==> (#[trigger] message.properties[i]
                    is ContentType <==> i == 0)
        }),
{
}

/// Every message carries its identifier exactly once, in second place,
/// unless the trace context itself brings a pair under the key `event_id`.
pub proof fn lemma_one_event_id(
    event_type: EventType,
    payload: Seq<u8>,
    event_id: Seq<char>,
    device_id: Seq<char>,
    emitted_at: Seq<char>,
    trace: Seq<(Seq<char>, Seq<char>)>,
)
    requires
        forall|i: int| 0 <= i < trace.len() ==> (#[trigger] trace[i]).0 != "event_id"@,
    ensures
        ({
            let message = outgoing(event_type, payload, event_id, device_id, emitted_at, trace);
            &&& message.properties[1] == PropertyView::UserProperty("event_id"@, event_id)
            &&& forall|i: int|
                0 <= i < message.properties.len() ==> (#[trigger] message.properties[i].has_key(
                    "event_id"@,
                ) <==> i == 1)
        }),
{
    reveal_strlit("event_id");
    reveal_strlit("device_id");
    reveal_strlit("emitted_at");
    let message = outgoing(event_type, payload, event_id, device_id, emitted_at, trace);
    assert("device_id"@.len() != "event_id"@.len());
    assert("emitted_at"@.len() != "event_id"@.len());
    assert forall|i: int| 0 <= i < message.properties.len() implies (
    #[trigger] message.properties[i].has_key("event_id"@) <==> i == 1) by {
        if i >= 4 {
            assert(message.properties[i] == PropertyView::UserProperty(
                trace[i - 4].0,
                trace[i - 4].1,
            ));
        }
    }
}

} // verus!
