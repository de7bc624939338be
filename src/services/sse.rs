//! A Server-Sent Events connection task and the service that opens it.
//!
//! The task decides; the platform acts. Every platform call the task wants
//! made is handed out as a [`PlatformCall`] value, and every platform event is
//! handed in as a [`PlatformEvent`] value, so that the whole lifecycle is a
//! verified state machine independent of the backend that runs it.
use vstd::prelude::*;

pub mod uri;

use self::uri::{parse_uri, uri_text};

verus! {

/// Readiness of a connection, as the SSE protocol defines it.
#[derive(PartialEq, Eq, Structural, Debug, Clone, Copy)]
pub enum ReadyState {
    Connecting,
    Open,
    Closed,
}

/// Faults that the service and the task report.
#[derive(PartialEq, Eq, Structural, Debug, Clone, Copy)]
pub enum Error {
    /// The url does not parse as a URI; no connection was attempted.
    InvalidUrl,
    /// The platform refused to create the connection.
    BackendRejected,
    /// A message event carried data that is not text.
    NonTextPayload,
    /// The platform reported a ready-state code outside `0..=2`.
    ProtocolViolation,
}

/// The ready state that a platform code stands for, if any.
pub open spec fn ready_state_of(code: u16) -> Option<ReadyState> {
    if code == 0 {
        Some(ReadyState::Connecting)
    } else if code == 1 {
        Some(ReadyState::Open)
    } else if code == 2 {
        Some(ReadyState::Closed)
    } else {
        None
    }
}

/// Maps a platform ready-state code to a [`ReadyState`]; any code but 0, 1
/// and 2 is a protocol violation.
pub fn ready_state_from_code(code: u16) -> (r: Result<ReadyState, Error>)
    ensures
        match ready_state_of(code) {
            Some(s) => r == Ok::<ReadyState, Error>(s),
            None => r == Err::<ReadyState, Error>(Error::ProtocolViolation),
        },
{
    match code {
        0 => Ok(ReadyState::Connecting),
        1 => Ok(ReadyState::Open),
        2 => Ok(ReadyState::Closed),
        _ => Err(Error::ProtocolViolation),
    }
}


/// The three event kinds that an SSE connection produces.
#[derive(PartialEq, Eq, Structural, Debug, Clone, Copy)]
pub enum EventKind {
    Message,
    Error,
    Open,
}

/// Out-of-band notice to the consumer; it carries no payload.
#[derive(PartialEq, Eq, Structural, Debug, Clone, Copy)]
pub enum EventSourceUpdate {
    Error,
    Open,
}

/// An event that the platform delivers on one of the task's subscriptions.
#[derive(PartialEq, Eq, Debug)]
pub enum PlatformEvent {
    /// The connection was established (again, after a reconnect).
    Open,
    /// A `message` event: its last event id (empty if absent) and its data,
    /// `None` where the data is not text.
    Message { last_event_id: String, data: Option<String> },
    /// The connection failed; the platform may be retrying.
    Error,
}

/// What the consumer receives for one platform event.
#[derive(PartialEq, Eq, Debug)]
pub enum Notification {
    /// A message: its event id and its text.
    Message(String, String),
    /// A connection update.
    Update(EventSourceUpdate),
    /// A fault local to one event; the task stays usable.
    Fault(Error),
}

/// A call on the platform backend that the task asks to be made.
#[derive(PartialEq, Eq, Structural, Debug, Clone, Copy)]
pub enum PlatformCall {
    /// Close the connection handle.
    Close,
    /// Remove the task's listener for one event kind.
    Unsubscribe(EventKind),
}

/// The platform `create` call that opening a connection asks for.
#[derive(PartialEq, Eq, Debug)]
pub struct ConnectRequest {
    /// The url, as the URI parser writes it back.
    pub url: String,
    /// `None` for a plain create; `Some(flag)` for a create with the
    /// `withCredentials` flag set to `flag`.
    pub with_credentials: Option<bool>,
}

/// The listener kinds that a live task holds, in the order it subscribes them.
pub open spec fn all_kinds() -> Seq<EventKind> {
    seq![EventKind::Message, EventKind::Error, EventKind::Open]
}

/// The calls that release a live task's resources: one close, then one
/// removal per listener.
pub open spec fn release_calls() -> Seq<PlatformCall> {
    seq![
        PlatformCall::Close,
        PlatformCall::Unsubscribe(EventKind::Message),
        PlatformCall::Unsubscribe(EventKind::Error),
        PlatformCall::Unsubscribe(EventKind::Open),
    ]
}

/// How many times `c` occurs in `s`.
pub open spec fn count_of(s: Seq<PlatformCall>, c: PlatformCall) -> nat
    decreases s.len(),
{
    if s.len() == 0 {
        0
    } else {
        count_of(s.drop_last(), c) + if s.last() == c {
            1nat
        } else {
            0nat
        }
    }
}

/// How many listener removals `s` asks for, of any kind.
pub open spec fn count_unsubscribes(s: Seq<PlatformCall>) -> nat
    decreases s.len(),
{
    if s.len() == 0 {
        0
    } else {
        count_unsubscribes(s.drop_last()) + if s.last() is Unsubscribe {
            1nat
        } else {
            0nat
        }
    }
}

/// What a live task hands its consumer for one platform event.
pub open spec fn notification_of(e: PlatformEvent) -> Notification {
    match e {
        PlatformEvent::Open => Notification::Update(EventSourceUpdate::Open),
        PlatformEvent::Error => Notification::Update(EventSourceUpdate::Error),
        PlatformEvent::Message { last_event_id, data } => match data {
            Some(text) => Notification::Message(last_event_id, text),
            None => Notification::Fault(Error::NonTextPayload),
        },
    }
}

/// One SSE connection: it owns the platform's connection handle and records
/// the three listener subscriptions that it holds on it.
pub struct EventSourceTask<H> {
    event_source: H,
    listeners: Vec<EventKind>,
    disposed: bool,
}

impl<H> EventSourceTask<H> {
    /// The connection handle that the task owns.
    pub closed spec fn source(&self) -> H {
        self.event_source
    }

    /// The kinds of the listener subscriptions that the task holds.
    pub closed spec fn listener_kinds(&self) -> Seq<EventKind> {
        self.listeners@
    }

    /// Whether the task has been disposed of.
    pub closed spec fn is_disposed(&self) -> bool {
        self.disposed
    }

    /// A live task holds exactly one listener per event kind; a disposed one
    /// holds none.
    pub open spec fn wf(&self) -> bool {
        if self.is_disposed() {
            self.listener_kinds() == Seq::<EventKind>::empty()
        } else {
            self.listener_kinds() == all_kinds()
        }
    }

    /// The platform calls that disposing of the task asks for.
    pub open spec fn disposal_calls(&self) -> Seq<PlatformCall> {
        if self.is_disposed() {
            Seq::empty()
        } else {
            release_calls()
        }
    }

    /// What the consumer receives for `events`, in order of arrival.
    pub open spec fn deliveries(&self, events: Seq<PlatformEvent>) -> Seq<Notification> {
        if self.is_disposed() {
            Seq::empty()
        } else {
            events.map_values(|e: PlatformEvent| notification_of(e))
        }
    }

    /// The connection handle, for the backend to act on.
    pub fn event_source(&self) -> (r: &H)
        ensures
            *r == self.source(),
    {
        &self.event_source
    }

    /// The kinds of the listeners that the task holds, for the backend to
    /// subscribe.
    pub fn listeners(&self) -> (r: &Vec<EventKind>)
        ensures
            r@ == self.listener_kinds(),
    {
        &self.listeners
    }

    /// Whether the task has been disposed of.
    pub fn disposed(&self) -> (r: bool)
        ensures
            r == self.is_disposed(),
    {
        self.disposed
    }

    /// The connection's readiness, given the ready-state code that the
    /// platform reports for it now.
    pub fn ready_state(&self, code: u16) -> (r: Result<ReadyState, Error>)
        ensures
            match ready_state_of(code) {
                Some(s) => r == Ok::<ReadyState, Error>(s),
                None => r == Err::<ReadyState, Error>(Error::ProtocolViolation),
            },
    {
        ready_state_from_code(code)
    }

    /// Whether the connection is not closed, given the platform's
    /// ready-state code.
    pub fn is_active(&self, code: u16) -> (r: Result<bool, Error>)
        ensures
            match ready_state_of(code) {
                Some(s) => r == Ok::<bool, Error>(s != ReadyState::Closed),
                None => r == Err::<bool, Error>(Error::ProtocolViolation),
            },
    {
        match self.ready_state(code) {
            Ok(s) => Ok(s != ReadyState::Closed),
            Err(e) => Err(e),
        }
    }

    /// Turns one platform event into what the consumer receives; a disposed
    /// task delivers nothing, also for an event that was already queued.
    pub fn dispatch(&self, event: PlatformEvent) -> (r: Option<Notification>)
        ensures
            r == (if self.is_disposed() {
                None
            } else {
                Some(notification_of(event))
            }),
    {
        if self.disposed {
            return None;
        }
        let n = match event {
            PlatformEvent::Open => Notification::Update(EventSourceUpdate::Open),
            PlatformEvent::Error => Notification::Update(EventSourceUpdate::Error),
            PlatformEvent::Message { last_event_id, data } => match data {
                Some(text) => Notification::Message(last_event_id, text),
                None => Notification::Fault(Error::NonTextPayload),
            },
        };
        Some(n)
    }

    /// Dispatches a run of platform events in their order of arrival.
    pub fn dispatch_all(&self, events: Vec<PlatformEvent>) -> (r: Vec<Notification>)
        ensures
            r@ == self.deliveries(events@),
    {
        let mut out: Vec<Notification> = Vec::new();
        if self.disposed {
            return out;
        }
        let mut rest = events;
        let ghost all = rest@;
        while rest.len() > 0
            invariant
                !self.is_disposed(),
                out@.len() + rest@.len() == all.len(),
                rest@ == all.subrange(out@.len() as int, all.len() as int),
                out@ == all.subrange(0, out@.len() as int).map_values(
                    |e: PlatformEvent| notification_of(e),
                ),
            decreases rest.len(),
        {
            let e = rest.remove(0);
            let n = self.dispatch(e);
            let ghost before = out@;
            match n {
                Some(n) => out.push(n),
                None => {},
            }
            proof {
                assert(all.subrange(0, out@.len() as int) == all.subrange(
                    0,
                    before.len() as int,
                ).push(e));
            }
        }
        proof {
            assert(all.subrange(0, all.len() as int) == all);
        }
        out
    }

    /// Releases the task's resources: the first call asks for the connection
    /// to be closed and for each of the three listeners to be removed; any
    /// later call asks for nothing.
    pub fn dispose(&mut self) -> (calls: Vec<PlatformCall>)
        requires
            old(self).wf(),
        ensures
            final(self).wf(),
            final(self).is_disposed(),
            final(self).source() == old(self).source(),
            calls@ == old(self).disposal_calls(),
    {
        let mut calls: Vec<PlatformCall> = Vec::new();
        if self.disposed {
            return calls;
        }
        calls.push(PlatformCall::Close);
        let mut i: usize = 0;
        while i < self.listeners.len()
            invariant
                self.listeners@ == all_kinds(),
                0 <= i <= 3,
                calls@.len() == i + 1,
                calls@[0] == PlatformCall::Close,
                forall|j: int|
                    0 <= j < i ==> calls@[j + 1] == PlatformCall::Unsubscribe(
                        #[trigger] self.listeners@[j],
                    ),
            decreases 3 - i,
        {
            calls.push(PlatformCall::Unsubscribe(self.listeners[i]));
            i = i + 1;
        }
        self.listeners = Vec::new();
        self.disposed = true;
        proof {
            assert(calls@ =~= release_calls());
        }
        calls
    }
}

/// `r` is what opening `url` gives: `InvalidUrl` where the url does not parse,
/// else a request to create a connection to the parsed url with the given
/// credentials setting.
pub open spec fn opens_as(
    url: Seq<char>,
    credentials: Option<bool>,
    r: Result<ConnectRequest, Error>,
) -> bool {
    match uri_text(url) {
        None => r == Err::<ConnectRequest, Error>(Error::InvalidUrl),
        Some(t) => r matches Ok(req) && req.url@ == t && req.with_credentials == credentials,
    }
}

/// Disposing of a well-formed task that is still live asks for exactly one
/// close and three listener removals, one for each event kind; disposing of
/// it once more asks for nothing, whatever the connection's readiness.
pub proof fn lemma_dispose_releases_each_resource_once<H>(t: EventSourceTask<H>)
    requires
        t.wf(),
    ensures
        !t.is_disposed() ==> {
            &&& count_of(t.disposal_calls(), PlatformCall::Close) == 1
            &&& count_unsubscribes(t.disposal_calls()) == 3
            &&& forall|k: EventKind|
                count_of(t.disposal_calls(), PlatformCall::Unsubscribe(k)) == 1
        },
        t.is_disposed() ==> t.disposal_calls().len() == 0,
{
    let s = release_calls();
    reveal_with_fuel(count_of, 5);
    reveal_with_fuel(count_unsubscribes, 5);
    assert(s.drop_last().drop_last().drop_last().drop_last() =~= Seq::<PlatformCall>::empty());
    assert(s.drop_last().drop_last().drop_last() =~= seq![PlatformCall::Close]);
    assert(s.drop_last().drop_last() =~= seq![
        PlatformCall::Close,
        PlatformCall::Unsubscribe(EventKind::Message),
    ]);
    assert(s.drop_last() =~= seq![
        PlatformCall::Close,
        PlatformCall::Unsubscribe(EventKind::Message),
        PlatformCall::Unsubscribe(EventKind::Error),
    ]);
}

/// Once a task is disposed of, no platform event reaches the consumer, also
/// one that was in flight when the task was disposed of.
pub proof fn lemma_no_delivery_after_disposal<H>(t: EventSourceTask<H>, events: Seq<PlatformEvent>)
    requires
        t.wf(),
        t.is_disposed(),
    ensures
        t.deliveries(events) == Seq::<Notification>::empty(),
{
}

/// Opening a url with credentials makes a create call that differs from the
/// plain one in its credentials flag alone; both refuse the same urls.
pub proof fn lemma_credentials_are_visible(
    url: Seq<char>,
    plain: Result<ConnectRequest, Error>,
    credentialed: Result<ConnectRequest, Error>,
)
    requires
        opens_as(url, None, plain),
        opens_as(url, Some(true), credentialed),
    ensures
        plain is Ok <==> credentialed is Ok,
        plain is Ok ==> plain->Ok_0.url@ == credentialed->Ok_0.url@
            && plain->Ok_0.with_credentials != credentialed->Ok_0.with_credentials,
{
}

/// Opens SSE connections; it holds no state of its own.
#[derive(Debug)]
pub struct EventSourceService {}

impl EventSourceService {
    /// A new service.
    pub fn new() -> (r: Self) {
        EventSourceService {}
    }

    /// Validates `url` and, where it parses, asks the platform for a plain
    /// connection to it. An invalid url asks the platform for nothing.
    pub fn open(&self, url: &str) -> (r: Result<ConnectRequest, Error>)
        ensures
            opens_as(url@, None, r),
    {
        match parse_uri(url) {
            None => Err(Error::InvalidUrl),
            Some(u) => Ok(ConnectRequest { url: u, with_credentials: None }),
        }
    }

    /// Validates `url` and, where it parses, asks the platform for a
    /// connection with the `withCredentials` flag set to `credentials`.
    pub fn open_with_credentials(&self, url: &str, credentials: bool) -> (r: Result<
        ConnectRequest,
        Error,
    >)
        ensures
            opens_as(url@, Some(credentials), r),
    {
        match parse_uri(url) {
            None => Err(Error::InvalidUrl),
            Some(u) => Ok(ConnectRequest { url: u, with_credentials: Some(credentials) }),
        }
    }

    /// Builds the task around the outcome of the platform's create call: a
    /// refused create is `BackendRejected`; a created handle gets a live task
    /// that holds one listener per event kind.
    pub fn open_impl<H>(&self, created: Result<H, ()>) -> (r: Result<EventSourceTask<H>, Error>)
        ensures
            match created {
                Err(_) => r is Err && r->Err_0 == Error::BackendRejected,
                Ok(h) => r matches Ok(t) && t.wf() && !t.is_disposed() && t.source() == h
                    && t.listener_kinds() == all_kinds(),
            },
    {
        match created {
            Err(_) => Err(Error::BackendRejected),
            Ok(event_source) => {
                let listeners: Vec<EventKind> = vec![
                    EventKind::Message,
                    EventKind::Error,
                    EventKind::Open,
                ];
                Ok(EventSourceTask { event_source, listeners, disposed: false })
            },
        }
    }
}

} // verus!
