//! The subscriber registry and the per-notification dispatch step.
//!
//! The registry maps a user id to a broadcast endpoint, created lazily on the
//! first subscription and shared by every later subscription of the same
//! user. Publishing to a user with no endpoint is a silent no-op; a lagging
//! receive handle loses its oldest pending events rather than blocking the
//! publisher. The map and the channels are dashmap's and tokio's; the
//! decisions around them — when to create an endpoint, whom to deliver to —
//! are verified.

use vstd::prelude::*;

verus! {

use std::sync::Arc;
use crate::decode::{Notification, NotificationV, res_view, spec_try_load};
use crate::domain::{Chat, ChatV, Msg, MsgV};
use crate::error::{AppError, AppErrorV};

/// Abstract value of an [`AppEvent`].
pub enum AppEventV {
    NewChat(ChatV),
    AddToChat(ChatV),
    RemoveFromChat(ChatV),
    NewMessage(MsgV),
}

/// A domain event delivered to subscribers. Constructed once per
/// notification and shared, read-only, by every fan-out target.
#[derive(Debug, Clone, PartialEq)]
pub enum AppEvent {
    NewChat(Chat),
    AddToChat(Chat),
    RemoveFromChat(Chat),
    NewMessage(Msg),
}

impl View for AppEvent {
    type V = AppEventV;

    open spec fn view(&self) -> AppEventV {
        match self {
            AppEvent::NewChat(c) => AppEventV::NewChat(c@),
            AppEvent::AddToChat(c) => AppEventV::AddToChat(c@),
            AppEvent::RemoveFromChat(c) => AppEventV::RemoveFromChat(c@),
            AppEvent::NewMessage(m) => AppEventV::NewMessage(m@),
        }
    }
}

/// The stable wire name of each event variant.
pub open spec fn spec_event_tag(e: AppEventV) -> Seq<char> {
    match e {
        AppEventV::NewChat(_) => "new_chat"@,
        AppEventV::AddToChat(_) => "add_to_chat"@,
        AppEventV::RemoveFromChat(_) => "remove_from_chat"@,
        AppEventV::NewMessage(_) => "new_message"@,
    }
}

impl AppEvent {
    /// The wire event name of this variant.
    pub fn get_name(&self) -> (r: &'static str)
        ensures
            r@ == spec_event_tag(self@),
    {
        match self {
            AppEvent::NewChat(_) => "new_chat",
            AppEvent::AddToChat(_) => "add_to_chat",
            AppEvent::RemoveFromChat(_) => "remove_from_chat",
            AppEvent::NewMessage(_) => "new_message",
        }
    }
}

#[verifier::external_type_specification]
#[verifier::external_body]
#[verifier::reject_recursive_types(K)]
#[verifier::reject_recursive_types(V)]
#[verifier::reject_recursive_types(S)]
pub struct ExDashMap<K, V, S>(dashmap::DashMap<K, V, S>);

#[verifier::external_type_specification]
#[verifier::external_body]
#[verifier::reject_recursive_types(T)]
pub struct ExBroadcastSender<T>(tokio::sync::broadcast::Sender<T>);

#[verifier::external_type_specification]
#[verifier::external_body]
#[verifier::reject_recursive_types(T)]
pub struct ExBroadcastReceiver<T>(tokio::sync::broadcast::Receiver<T>);

/// How many pending events one receive handle may buffer before its oldest
/// pending event is dropped.
pub const BACKLOG_CAPACITY: usize = 1024;

/// The subscriber registry: one broadcast endpoint per user with a live
/// subscription. Entries are created on first subscription and never removed.
#[derive(Clone)]
pub struct NotifService {
    online_users: Arc<
        dashmap::DashMap<u64, tokio::sync::broadcast::Sender<Arc<AppEvent>>>,
    >,
}

impl NotifService {
    /// An empty registry. Relies on dashmap's `DashMap::new`.
    #[verifier::external_body]
    pub fn new() -> Self {
        NotifService { online_users: Arc::new(dashmap::DashMap::new()) }
    }

    /// Relies on dashmap's `get`: a clone of the endpoint stored for
    /// `user_id`, if one is stored at the moment of the call. Other tasks
    /// insert concurrently, so nothing relates two calls.
    #[verifier::external_body]
    fn lookup_sender(&self, user_id: u64) -> Option<
        tokio::sync::broadcast::Sender<Arc<AppEvent>>,
    > {
        self.online_users.get(&user_id).map(|r| r.value().clone())
    }

    /// Relies on dashmap's `entry` and `Entry::or_insert`: atomically stores
    /// `tx` for `user_id` unless an endpoint is already stored, and returns a
    /// clone of the endpoint stored for `user_id` afterwards.
    #[verifier::external_body]
    fn store_or_get_sender(
        &self,
        user_id: u64,
        tx: tokio::sync::broadcast::Sender<Arc<AppEvent>>,
    ) -> tokio::sync::broadcast::Sender<Arc<AppEvent>> {
        self.online_users.entry(user_id).or_insert(tx).value().clone()
    }

    /// Subscribes `user_id`: returns a fresh receive handle on the user's
    /// broadcast endpoint, creating the endpoint — atomically, so concurrent
    /// first subscriptions share one endpoint — when none exists yet. Never
    /// blocks and never fails.
    pub fn register(&self, user_id: u64) -> tokio::sync::broadcast::Receiver<Arc<AppEvent>> {
        match self.lookup_sender(user_id) {
            Some(tx) => subscribe_endpoint(&tx),
            None => {
                let pair = new_endpoint(BACKLOG_CAPACITY);
                let shared = self.store_or_get_sender(user_id, pair.0);
                subscribe_endpoint(&shared)
            },
        }
    }

    /// Publishes `event` to `user_id`'s endpoint. A user without a live
    /// subscription is skipped silently; a slow subscriber loses old events
    /// rather than delaying this call. Returns whether an endpoint existed.
    pub fn publish(&self, user_id: u64, event: &Arc<AppEvent>) -> bool {
        match self.lookup_sender(user_id) {
            Some(tx) => {
                send_event(&tx, event);
                true
            },
            None => false,
        }
    }

    /// The dispatch step for one raw notification: decode it and publish the
    /// event to every affected user. A notification that fails to decode is
    /// reported in the result and nothing is published; the caller's loop
    /// goes on with the next notification either way.
    pub fn dispatch(&self, rtype: &str, payload: &str) -> (r: Result<Notification, AppError>)
        ensures
            (r is Ok) == (spec_try_load(rtype@, payload@) is Ok),
            r matches Ok(n) ==> spec_try_load(rtype@, payload@) == Ok::<
                NotificationV,
                AppErrorV,
            >(n@) && n.user_ids@.no_duplicates(),
            r matches Err(e) ==> spec_try_load(rtype@, payload@) == Err::<
                NotificationV,
                AppErrorV,
            >(e@),
    {
        match Notification::try_load(rtype, payload) {
            Ok(n) => {
                let count = n.user_ids.len();
                let mut i: usize = 0;
                while i < count
                    invariant
                        i <= count,
                        count == n.user_ids@.len(),
                    decreases count - i,
                {
                    self.publish(n.user_ids[i], &n.event);
                    i += 1;
                }
                Ok(n)
            },
            Err(e) => Err(e),
        }
    }
}

/// Relies on tokio's `broadcast::channel`: a fresh endpoint whose receive
/// handles each buffer up to `capacity` pending events.
#[verifier::external_body]
fn new_endpoint(capacity: usize) -> (
    tokio::sync::broadcast::Sender<Arc<AppEvent>>,
    tokio::sync::broadcast::Receiver<Arc<AppEvent>>,
)
    requires
        1 <= capacity <= usize::MAX / 2,
{
    tokio::sync::broadcast::channel(capacity)
}

/// Relies on tokio's broadcast `Sender::subscribe`: a fresh receive handle
/// that observes the events sent after this call.
#[verifier::external_body]
fn subscribe_endpoint(tx: &tokio::sync::broadcast::Sender<Arc<AppEvent>>) -> tokio::sync::broadcast::Receiver<
    Arc<AppEvent>,
> {
    tx.subscribe()
}

/// Relies on tokio's broadcast `Sender::send`: hands the shared event to
/// every current receive handle of this endpoint, dropping each lagging
/// handle's oldest pending event instead of blocking. Returns whether at
/// least one receive handle took it.
#[verifier::external_body]
fn send_event(
    tx: &tokio::sync::broadcast::Sender<Arc<AppEvent>>,
    event: &Arc<AppEvent>,
) -> bool {
    tx.send(event.clone()).is_ok()
}

} // verus!
