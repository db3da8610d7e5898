use vstd::prelude::*;
use vstd::rwlock::{RwLock, RwLockPredicate};

use crate::error::SwtchrError;
use crate::filter::{filter_event, spec_filter, SwayEvent};
use crate::queue::{ids_unique, WindowQueue};
use crate::window::{Window, WindowEvent};

verus! {

/// The channel endpoint that carries query requests and replies; opaque
/// here, created by the caller that wires the actors up.
#[verifier::external_type_specification]
#[verifier::external_body]
#[verifier::reject_recursive_types(T)]
pub struct ExSender<T>(std::sync::mpsc::Sender<T>);

/// The receiving end of such a channel; opaque here.
#[verifier::external_type_specification]
#[verifier::external_body]
#[verifier::reject_recursive_types(T)]
pub struct ExReceiver<T>(std::sync::mpsc::Receiver<T>);

/// The failure a send reports when the receiving endpoint is gone.
#[verifier::external_type_specification]
#[verifier::external_body]
#[verifier::reject_recursive_types(T)]
pub struct ExSendError<T>(std::sync::mpsc::SendError<T>);

/// The failure a receive reports when every sending endpoint is gone.
#[verifier::external_type_specification]
#[verifier::external_body]
pub struct ExRecvError(std::sync::mpsc::RecvError);

/// Relies on `std::sync::mpsc::Sender::send`: hands the value to the
/// receiving endpoint, and fails exactly when that endpoint is gone. Which
/// outcome occurs depends on the other thread, so callers must cope with
/// both.
#[verifier::external_body]
fn channel_send<T>(sender: &std::sync::mpsc::Sender<T>, value: T) -> (r: Result<
    (),
    std::sync::mpsc::SendError<T>,
>) {
    sender.send(value)
}

/// Relies on `std::sync::mpsc::Receiver::recv`: blocks for the next value a
/// sending endpoint handed over, and fails exactly when the channel is empty
/// and every sending endpoint is gone. Which value arrives depends on the
/// other thread, so nothing is promised beyond what holds of every value of
/// the carried type.
#[verifier::external_body]
fn channel_recv<T>(receiver: &std::sync::mpsc::Receiver<T>) -> (r: Result<
    T,
    std::sync::mpsc::RecvError,
>) {
    receiver.recv()
}

/// The predicate the shared lock maintains: only well-formed queues are ever
/// stored.
pub struct QueueInv {}

impl RwLockPredicate<WindowQueue> for QueueInv {
    open spec fn inv(self, q: WindowQueue) -> bool {
        q.wf()
    }
}

/// The window ordering store as the actors share it: a reader-writer lock
/// around the queue. The subscription actor is the sole writer; the query
/// actor reads. Every value that ever rests in the lock is well-formed, so a
/// snapshot taken between any two writes carries no duplicate id.
pub struct WindowStore {
    lock: RwLock<WindowQueue, QueueInv>,
}

impl WindowStore {
    /// A store holding an empty queue.
    pub fn new() -> WindowStore {
        WindowStore { lock: RwLock::new(WindowQueue::new(), Ghost(QueueInv {  })) }
    }

    /// Applies one accepted event under the exclusive side of the lock, so no
    /// reader ever observes the queue mid-mutation.
    pub fn apply(&self, event: WindowEvent) {
        let (mut queue, handle) = self.lock.acquire_write();
        queue.push_event(event);
        handle.release_write(queue);
    }

    /// An ordered copy of the current entries, taken under a shared read
    /// lock: never aliasing live storage, and never carrying a duplicate id.
    pub fn snapshot(&self) -> (r: Vec<Window>)
        ensures
            ids_unique(r.deep_view()),
    {
        let handle = self.lock.acquire_read();
        let list = handle.borrow().sorted_windows();
        handle.release_read();
        list
    }
}

/// One reply to one snapshot request: the ordered list, or the error the
/// subscription actor forwarded. A reply carrying a list never carries a
/// duplicate id, wherever the reply has travelled in between.
pub struct QueryReply {
    res: Result<Vec<Window>, SwtchrError>,
}

impl QueryReply {
    #[verifier::type_invariant]
    spec fn type_inv(self) -> bool {
        self.res matches Ok(ws) ==> ids_unique(ws.deep_view())
    }

    /// What the reply carries.
    pub closed spec fn outcome(self) -> Result<Vec<Window>, SwtchrError> {
        self.res
    }

    /// A successful reply.
    pub fn windows(list: Vec<Window>) -> (r: QueryReply)
        requires
            ids_unique(list.deep_view()),
        ensures
            r.outcome() == Ok::<Vec<Window>, SwtchrError>(list),
    {
        QueryReply { res: Ok(list) }
    }

    /// A forwarded failure.
    pub fn failure(e: SwtchrError) -> (r: QueryReply)
        ensures
            r.outcome() == Err::<Vec<Window>, SwtchrError>(e),
    {
        QueryReply { res: Err(e) }
    }

    /// Surrenders the carried outcome.
    pub fn into_outcome(self) -> (r: Result<Vec<Window>, SwtchrError>)
        ensures
            r == self.outcome(),
            r matches Ok(ws) ==> ids_unique(ws.deep_view()),
    {
        proof {
            use_type_invariant(&self);
        }
        let QueryReply { res } = self;
        res
    }
}

/// One `Listening` step of the subscription actor, the store's sole writer.
///
/// The raw notification runs through the event filter; an accepted event is
/// applied to the store, a discarded one changes nothing. A filter error is
/// forwarded towards the consumer, so it surfaces on the next query, and the
/// actor leaves the `Listening` state for good: the store stays frozen at
/// its last contents rather than bringing the process down. Returns whether
/// the actor is still listening.
pub fn subscription_step(
    store: &WindowStore,
    event_result: Result<SwayEvent, SwtchrError>,
    urgent_first: bool,
    responses: &std::sync::mpsc::Sender<QueryReply>,
) -> (listening: bool)
    ensures
        listening == !(spec_filter(event_result, urgent_first) is Err),
{
    match filter_event(event_result, urgent_first) {
        Ok(Some(event)) => {
            store.apply(event);
            true
        },
        Ok(None) => true,
        Err(e) => {
            match channel_send(responses, QueryReply::failure(e)) {
                _ => false,
            }
        },
    }
}

/// One round of the query actor: block for one request token, then answer
/// it with a snapshot of the store.
///
/// Exactly one reply is sent per request received. When the requesting
/// endpoint is gone the actor cannot be asked anything again, and when the
/// responding endpoint is gone no answer can ever arrive: both are fatal to
/// this actor, reported as an error rather than a silent hang.
pub fn serve_query(
    store: &WindowStore,
    requests: &std::sync::mpsc::Receiver<()>,
    responses: &std::sync::mpsc::Sender<QueryReply>,
) -> (r: Result<(), SwtchrError>)
    ensures
        r is Err ==> r == Err::<(), SwtchrError>(SwtchrError::ActorTerminated),
{
    match channel_recv(requests) {
        Err(_) => Err(SwtchrError::ActorTerminated),
        Ok(_) => {
            let reply = QueryReply::windows(store.snapshot());
            match channel_send(responses, reply) {
                Err(_) => Err(SwtchrError::ActorTerminated),
                Ok(_) => Ok(()),
            }
        },
    }
}

/// The synchronous facade the consumer holds: one request endpoint paired
/// with one response endpoint, served by the query actor.
pub struct WindowSubscription {
    command: std::sync::mpsc::Sender<()>,
    response: std::sync::mpsc::Receiver<QueryReply>,
}

impl WindowSubscription {
    /// Pairs the consumer's two channel endpoints into a subscription
    /// handle.
    pub fn new(
        command: std::sync::mpsc::Sender<()>,
        response: std::sync::mpsc::Receiver<QueryReply>,
    ) -> WindowSubscription {
        WindowSubscription { command, response }
    }

    /// Sends one request token, then blocks until exactly one reply arrives.
    ///
    /// Returns the ordered list — never with a duplicate id — or the error
    /// the subscription actor forwarded since the last successful query.
    /// When the query actor is gone before the request can be handed over
    /// this reports [`SwtchrError::ActorTerminated`]; when it vanishes
    /// between request and reply, [`SwtchrError::SharedStateCorrupted`].
    pub fn get_window_list(&self) -> (r: Result<Vec<Window>, SwtchrError>)
        ensures
            r matches Ok(ws) ==> ids_unique(ws.deep_view()),
    {
        match channel_send(&self.command, ()) {
            Err(_) => Err(SwtchrError::ActorTerminated),
            Ok(_) => match channel_recv(&self.response) {
                Err(_) => Err(SwtchrError::SharedStateCorrupted),
                Ok(reply) => reply.into_outcome(),
            },
        }
    }
}

} // verus!
