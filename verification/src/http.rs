//! Endpoint logic: turns a parsed request and the store's answer into an HTTP
//! status code and a response body. The listener, routing and JSON marshaling
//! stand outside this crate; they hand these functions plain values and send
//! back what they return.

use crate::handler::{Database, Event, EventType, Sender};
use vstd::prelude::*;

verus! {

/// Probe outcome reported by the health endpoint.
#[derive(Clone, Copy, PartialEq, Eq, Structural, Debug)]
pub enum Status {
    OK,
    KO,
}

/// Two-field status object of the persistent variant's health endpoint.
#[derive(Clone, Copy, PartialEq, Eq, Structural, Debug)]
pub struct HealthCheck {
    pub server: Status,
    pub mongo: Status,
}

/// The nested part of one document-database record: its key (`id`) and its
/// payload.
#[derive(Clone, Debug)]
pub struct Object {
    pub sample_data: String,
    pub id: String,
}

/// One record of the document database, as the persistent variant returns it.
#[derive(Clone, Debug)]
pub struct SampleObject {
    pub object: Object,
}

/// In-memory variant, root/health endpoint: a fixed liveness string, always
/// with status 200.
pub fn liveness() -> (r: (u16, String))
    ensures
        r.0 == 200,
        r.1@ == "OK"@,
{
    (200, "OK".to_owned())
}

/// In-memory variant, send endpoint: builds a WRITE event from the caller's
/// address, key and value, and records it. A request with a value answers
/// 200 "OK" and updates the mapping; one without answers 400
/// "Internal Error" and leaves the mapping untouched.
pub fn send_event(db: &mut Database, sender: Sender, key: String, value: Option<String>) -> (r: (
    u16,
    String,
))
    ensures
        value matches Some(v) ==> r.0 == 200 && r.1@ == "OK"@ && final(db)@ == old(db)@.insert(
            key@,
            v@,
        ),
        value is None ==> r.0 == 400 && r.1@ == "Internal Error"@ && final(db)@ == old(db)@,
{
    let event = Event::new(sender, EventType::WRITE, key, value);
    match db.store(&event) {
        Ok(_) => (200, "OK".to_owned()),
        Err(_) => (400, "Internal Error".to_owned()),
    }
}

/// In-memory variant, get endpoint: answers 200 with the stored value as the
/// body when the key is present, and 400 "Error" when it is not.
pub fn get_event(db: &Database, key: String) -> (r: (u16, String))
    ensures
        db@.contains_key(key@) ==> r.0 == 200 && r.1@ == db@[key@],
        !db@.contains_key(key@) ==> r.0 == 400 && r.1@ == "Error"@,
{
    match db.read(key) {
        Ok(Some(value)) => (200, value),
        Ok(None) => (400, "Error".to_owned()),
        Err(_) => (400, "Error".to_owned()),
    }
}

/// Persistent variant, root/health endpoint: the server reports itself OK
/// whatever happened, and reports the database OK or KO as the connectivity
/// probe went; the HTTP status is 200 in either case.
pub fn health_check(mongo_ok: bool) -> (r: HealthCheck)
    ensures
        r.server == Status::OK,
        r.mongo == (if mongo_ok {
            Status::OK
        } else {
            Status::KO
        }),
{
    HealthCheck {
        server: Status::OK,
        mongo: if mongo_ok {
            Status::OK
        } else {
            Status::KO
        },
    }
}

/// Persistent variant, send endpoint. Despite its name it answers a lookup:
/// a found document comes back as 200 with a one-element list holding it, a
/// miss as 404 with an empty list.
pub fn send_response(found: Option<SampleObject>) -> (r: (u16, Vec<Option<SampleObject>>))
    ensures
        found matches Some(d) ==> r.0 == 200 && r.1@ == seq![Some(d)],
        found is None ==> r.0 == 404 && r.1@ == Seq::<Option<SampleObject>>::empty(),
{
    match found {
        Some(d) => {
            let mut body: Vec<Option<SampleObject>> = Vec::new();
            body.push(Some(d));
            proof {
                assert(body@ =~= seq![Some(found->0)]);
            }
            (200, body)
        },
        None => {
            let body: Vec<Option<SampleObject>> = Vec::new();
            proof {
                assert(body@ =~= Seq::<Option<SampleObject>>::empty());
            }
            (404, body)
        },
    }
}

/// Persistent variant, get endpoint: a stub. Whatever the request held, the
/// answer is 200 "ALL OK"; no lookup happens.
pub fn get_entry() -> (r: (u16, String))
    ensures
        r.0 == 200,
        r.1@ == "ALL OK"@,
{
    (200, "ALL OK".to_owned())
}

} // verus!
