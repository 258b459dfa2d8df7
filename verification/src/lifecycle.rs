//! Lifecycle callbacks sent by running jobs, and the events they become.

use vstd::prelude::*;
use crate::text::{decimal, push_decimal};

verus! {

/// The stage of its lifecycle that a job reports in a callback.
#[derive(Clone, Copy, Debug, PartialEq, Eq, Structural)]
pub enum CallbackKind {
    Unknown,
    Ready,
    Initialized,
    Started,
    Heartbeat,
    Finished,
    Stopped,
    Failed,
}

/// The kind of an event fired for a job.
#[derive(Clone, Copy, Debug, PartialEq, Eq, Structural)]
pub enum EventKind {
    Ready,
    Initialized,
    Started,
    Finished,
    Stopped,
    Failed,
}

/// A callback message from a job, already decoded.
#[derive(Debug)]
pub struct Callback {
    pub kind: CallbackKind,
    pub job: String,
    pub application: String,
    pub location: String,
    pub order: i32,
    pub payload: Vec<u8>,
}

impl Callback {
    /// The lifecycle stage this callback reports.
    pub fn kind(&self) -> (kind: CallbackKind)
        ensures
            kind == self.kind,
    {
        self.kind
    }
}

/// An event about a job, to be fired on the event bus.
#[derive(Debug)]
pub struct Event {
    pub kind: EventKind,
    pub identifier: String,
    pub application: String,
    pub location: String,
    pub category: String,
    pub order: u32,
    pub payload: Option<Vec<u8>>,
    pub timestamp: Option<i64>,
}

impl Event {
    /// Bundles the given fields, unchanged.
    pub fn new(
        kind: EventKind,
        identifier: String,
        application: String,
        location: String,
        category: String,
        order: u32,
        payload: Option<Vec<u8>>,
        timestamp: Option<i64>,
    ) -> (event: Self)
        ensures
            event == (Event {
                kind,
                identifier,
                application,
                location,
                category,
                order,
                payload,
                timestamp,
            }),
    {
        Event { kind, identifier, application, location, category, order, payload, timestamp }
    }
}

/// An error raised while handling a job callback.
#[derive(Debug)]
pub struct JobError {
    pub message: String,
}

/// The event kind that a callback kind is passed on as; `None` for the
/// kinds that fire no event here (unknown callbacks, and heartbeats, which
/// have their own handler).
pub open spec fn lifecycle_event_kind(kind: CallbackKind) -> Option<EventKind> {
    match kind {
        CallbackKind::Ready => Some(EventKind::Ready),
        CallbackKind::Initialized => Some(EventKind::Initialized),
        CallbackKind::Started => Some(EventKind::Started),
        CallbackKind::Finished => Some(EventKind::Finished),
        CallbackKind::Stopped => Some(EventKind::Stopped),
        CallbackKind::Failed => Some(EventKind::Failed),
        _ => None,
    }
}

/// The key under which the event for a callback is fired: the job id, `#`,
/// and the callback's order number in decimal.
pub open spec fn event_key(callback: Callback) -> Seq<char> {
    callback.job@ + seq!['#'] + decimal(callback.order as int)
}

/// Whether `event` is the event that `callback` becomes, with the given kind:
/// it carries the callback's job, application, location and payload, the
/// category `job`, the order number taken as `u32`, and no timestamp.
pub open spec fn is_lifecycle_event(event: Event, callback: Callback, kind: EventKind) -> bool {
    &&& event.kind == kind
    &&& event.identifier == callback.job
    &&& event.application == callback.application
    &&& event.location == callback.location
    &&& event.category@ == seq!['j', 'o', 'b']
    &&& event.order == callback.order as u32
    &&& event.payload == Some(callback.payload)
    &&& event.timestamp is None
}

/// Handles an incoming lifecycle callback by passing it on as an event.
///
/// An unknown callback fires nothing; any other callback fires one event,
/// under the key `job#order`. Heartbeats belong to another handler and are
/// not accepted here.
pub fn handle(callback: Callback) -> (result: Result<Vec<(String, Event)>, JobError>)
    requires
        callback.kind != CallbackKind::Heartbeat,
    ensures
        match result {
            Ok(events) => match lifecycle_event_kind(callback.kind) {
                None => events@.len() == 0,
                Some(kind) => {
                    &&& events@.len() == 1
                    &&& events@[0].0@ == event_key(callback)
                    &&& is_lifecycle_event(events@[0].1, callback, kind)
                },
            },
            Err(_) => false,
        },
        result matches Ok(events) && (events@.len() == 0 <==> callback.kind
            == CallbackKind::Unknown),
        result matches Ok(events) ==> events@.len() == 0 || {
            &&& (callback.kind == CallbackKind::Ready ==> events@[0].1.kind == EventKind::Ready)
            &&& (callback.kind == CallbackKind::Initialized ==> events@[0].1.kind
                == EventKind::Initialized)
            &&& (callback.kind == CallbackKind::Started ==> events@[0].1.kind
                == EventKind::Started)
            &&& (callback.kind == CallbackKind::Finished ==> events@[0].1.kind
                == EventKind::Finished)
            &&& (callback.kind == CallbackKind::Stopped ==> events@[0].1.kind
                == EventKind::Stopped)
            &&& (callback.kind == CallbackKind::Failed ==> events@[0].1.kind == EventKind::Failed)
        },
{
    let kind = match callback.kind() {
        CallbackKind::Unknown => {
            return Ok(Vec::new());
        },
        CallbackKind::Ready => EventKind::Ready,
        CallbackKind::Initialized => EventKind::Initialized,
        CallbackKind::Started => EventKind::Started,
        CallbackKind::Heartbeat => vstd::pervasive::unreached(),
        CallbackKind::Finished => EventKind::Finished,
        CallbackKind::Stopped => EventKind::Stopped,
        CallbackKind::Failed => EventKind::Failed,
    };
    let ghost original = callback;
    let order = callback.order;

    let mut key = callback.job.clone();
    key.push('#');
    push_decimal(&mut key, order);

    let category = String::from_str("job");
    proof {
        reveal_strlit("job");
    }
    let event = Event::new(
        kind,
        callback.job,
        callback.application,
        callback.location,
        category,
        #[verifier::truncate]
        (order as u32),
        Some(callback.payload),
        None,
    );
    assert(key@ == event_key(original));
    assert(event.category@ == seq!['j', 'o', 'b']);
    Ok(vec![(key, event)])
}

} // verus!
