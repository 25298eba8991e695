//! The event data model and the in-memory key/value store.

use vstd::hash_map::StringHashMap;
use vstd::prelude::*;

verus! {

/// The kind of action an event records.
#[allow(non_camel_case_types)]
#[derive(Clone, Copy, PartialEq, Eq, Structural, Debug)]
pub enum EventType {
    READ,
    WRITE,
}

impl EventType {
    /// The name of the event type, as a sequence of characters.
    pub open spec fn spec_label(&self) -> Seq<char> {
        match *self {
            EventType::READ => "READ"@,
            EventType::WRITE => "WRITE"@,
        }
    }

    /// The name of the event type, as text.
    pub fn label(&self) -> (r: String)
        ensures
            r@ == self.spec_label(),
    {
        match *self {
            EventType::READ => "READ".to_owned(),
            EventType::WRITE => "WRITE".to_owned(),
        }
    }
}

/// The network-level originator of a request, as text, if known.
/// Recorded for audit purposes only.
pub struct Sender {
    pub addr: Option<String>,
}

#[verifier::external_type_specification]
#[verifier::external_body]
pub struct ExSystemTime(std::time::SystemTime);

/// Relies on `std::time::SystemTime::now`: the wall-clock time of the call.
/// Nothing is promised of its value.
#[verifier::external_body]
fn now() -> std::time::SystemTime {
    std::time::SystemTime::now()
}

/// An immutable record of one requested action: who asked, when, what kind of
/// action, under which key, and with which payload, if any.
pub struct Event {
    uuid: u64,
    sender: Sender,
    timestamp: std::time::SystemTime,
    event_type: EventType,
    key: String,
    value: Option<String>,
}

impl Event {
    /// The event's identifier.
    pub closed spec fn spec_uuid(&self) -> u64 {
        self.uuid
    }

    /// Who asked for the action.
    pub closed spec fn spec_sender(&self) -> Sender {
        self.sender
    }

    /// The kind of action the event records.
    pub closed spec fn spec_event_type(&self) -> EventType {
        self.event_type
    }

    /// The key the action targets.
    pub closed spec fn spec_key(&self) -> String {
        self.key
    }

    /// The payload, if the event carries one.
    pub closed spec fn spec_value(&self) -> Option<String> {
        self.value
    }

    /// Builds an event. Always succeeds; captures the wall-clock time at
    /// construction and assigns the constant placeholder identifier 1: not
    /// a real unique id, and no consumer depends on uniqueness. The key and
    /// value are taken as given: their validation is the store's concern.
    pub fn new(
        event_sender: Sender,
        etype: EventType,
        event_key: String,
        event_value: Option<String>,
    ) -> (r: Self)
        ensures
            r.spec_uuid() == 1,
            r.spec_sender() == event_sender,
            r.spec_event_type() == etype,
            r.spec_key() == event_key,
            r.spec_value() == event_value,
    {
        Self {
            uuid: 1,
            sender: event_sender,
            timestamp: now(),
            event_type: etype,
            key: event_key,
            value: event_value,
        }
    }
}

/// Why a store operation failed.
#[allow(non_camel_case_types)]
#[derive(Clone, Copy, PartialEq, Eq, Structural, Debug)]
pub enum StoreError {
    /// The event carried no value to record.
    NO_VALUE_IN_EVENT,
    /// Reserved: no code path produces it, as no operation checks for a
    /// missing key.
    NO_KEY_IN_EVENT,
}

/// Why a read operation failed.
#[allow(non_camel_case_types)]
#[derive(Clone, Copy, PartialEq, Eq, Structural, Debug)]
pub enum ReadError {
    /// The key is not present in the mapping.
    NO_KEY_FOUND,
}

/// The in-memory store: a mapping from string keys to string values, keys
/// unique, insertion order irrelevant. One request mutates or reads it at a
/// time; the exclusion that makes that true for concurrent requests is the
/// caller's lock around the whole store.
pub struct Database {
    pub map: StringHashMap<String>,
}

impl View for Database {
    type V = Map<Seq<char>, Seq<char>>;

    /// The mathematical contents of the store: keys to values, both as
    /// sequences of characters.
    open spec fn view(&self) -> Map<Seq<char>, Seq<char>> {
        self.map@.map_values(|v: String| v@)
    }
}

impl Database {
    /// Creates a store with no entries.
    pub fn new() -> (r: Self)
        ensures
            r@ == Map::<Seq<char>, Seq<char>>::empty(),
    {
        let r = Database { map: StringHashMap::new() };
        proof {
            assert(r@ =~= Map::<Seq<char>, Seq<char>>::empty());
        }
        r
    }

    /// Records the event's value under the event's key, overwriting any
    /// earlier value: last write wins, no merge, no versioning. An event
    /// without a value is rejected and the mapping is left untouched.
    pub fn store(&mut self, event: &Event) -> (r: Result<(), StoreError>)
        ensures
            event.spec_value() matches Some(v) ==> r == Ok::<(), StoreError>(()) && final(self)@
                == old(self)@.insert(event.spec_key()@, v@),
            event.spec_value() is None ==> r == Err::<(), StoreError>(
                StoreError::NO_VALUE_IN_EVENT,
            ) && final(self)@ == old(self)@,
    {
        if let Some(value) = &event.value {
            self.map.insert(event.key.clone(), value.clone());
            proof {
                assert(self@ =~= old(self)@.insert(event.key@, value@));
            }
            Ok(())
        } else {
            Err(StoreError::NO_VALUE_IN_EVENT)
        }
    }

    /// Looks up a key. A key present in the mapping yields its value,
    /// wrapped as present; a missing key is always an error, never a
    /// success with an absent value.
    pub fn read(&self, key: String) -> (r: Result<Option<String>, ReadError>)
        ensures
            self@.contains_key(key@) ==> (r matches Ok(Some(v)) && v@ == self@[key@]),
            !self@.contains_key(key@) ==> r == Err::<Option<String>, ReadError>(
                ReadError::NO_KEY_FOUND,
            ),
    {
        if let Some(value) = self.map.get(key.as_str()) {
            Ok(Some(value.clone()))
        } else {
            Err(ReadError::NO_KEY_FOUND)
        }
    }
}

} // verus!
