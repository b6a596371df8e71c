use crate::client::ResourceClient;
use crate::entity::Entity;
use crate::entity::EntityId;
use crate::error::reply_view;
use crate::error::Failure;
use crate::error::FrameworkError;
use crate::mailbox::deliver;
use crate::mailbox::open_mailbox;
use crate::mailbox::Delivery;
use crate::mailbox::MAX_CAPACITY;
use crate::model::action_step;
use crate::model::create_step;
use crate::model::delete_step;
use crate::model::get_step;
use crate::model::update_step;
use crate::model::Contents;
use crate::store::Key;
use crate::store::Store;
use tokio::sync::mpsc;
use tokio::sync::oneshot;
use vstd::prelude::*;

verus! {

/// The single-use channel on which an actor answers a request.
pub type Response<A> = oneshot::Sender<Result<A, FrameworkError>>;

/// A request to a resource actor: exactly one operation, its input, and the
/// channel for its one reply.
#[verifier::reject_recursive_types(T)]
#[allow(inconsistent_fields)]
pub enum ResourceRequest<T: Entity> {
    Create { payload: T::CreatePayload, respond_to: Response<T::Id> },
    Get { id: T::Id, respond_to: Response<Option<T>> },
    Update { id: T::Id, patch: T::Patch, respond_to: Response<T> },
    Delete { id: T::Id, respond_to: Response<()> },
    Action { id: T::Id, action: T::Action, respond_to: Response<T::ActionResult> },
}

/// The content of the reply to a Create.
pub open spec fn created_view<T: Entity>(r: Result<T::Id, FrameworkError>) -> Result<
    Key<T>,
    Failure,
> {
    match r {
        Ok(id) => Ok(id@),
        Err(e) => Err(e@),
    }
}

/// The content of the reply to a Get.
pub open spec fn found_view<T: Entity>(r: Result<Option<T>, FrameworkError>) -> Result<
    Option<T::V>,
    Failure,
> {
    match r {
        Ok(Some(item)) => Ok(Some(item@)),
        Ok(None) => Ok(None),
        Err(e) => Err(e@),
    }
}

/// The content of the reply to an Update.
pub open spec fn updated_view<T: Entity>(r: Result<T, FrameworkError>) -> Result<T::V, Failure> {
    match r {
        Ok(item) => Ok(item@),
        Err(e) => Err(e@),
    }
}

/// What a reply says, one form for each operation.
pub ghost enum ReplyContent<T: Entity> {
    Created(Result<Key<T>, Failure>),
    Found(Result<Option<T::V>, Failure>),
    Updated(Result<T::V, Failure>),
    Deleted(Result<(), Failure>),
    Acted(Result<T::ActionResult, Failure>),
}

/// The store after a request has been performed, and what its reply says.
/// `minted` is the identifier that the generator gave; only a Create uses it.
pub open spec fn request_step<T: Entity>(
    store: Contents<T>,
    msg: ResourceRequest<T>,
    minted: Key<T>,
) -> (Contents<T>, ReplyContent<T>) {
    match msg {
        ResourceRequest::Create { payload, .. } => {
            let (next, reply) = create_step::<T>(store, minted, payload);
            (next, ReplyContent::Created(reply))
        },
        ResourceRequest::Get { id, .. } => (store, ReplyContent::Found(get_step::<T>(store, id@))),
        ResourceRequest::Update { id, patch, .. } => {
            let (next, reply) = update_step::<T>(store, id@, patch);
            (next, ReplyContent::Updated(reply))
        },
        ResourceRequest::Delete { id, .. } => {
            let (next, reply) = delete_step::<T>(store, id@);
            (next, ReplyContent::Deleted(reply))
        },
        ResourceRequest::Action { id, action, .. } => {
            let (next, reply) = action_step::<T>(store, id@, action);
            (next, ReplyContent::Acted(reply))
        },
    }
}

/// Every request has exactly one reply, and the reply is of the request's
/// own kind: a Create is answered as a Create, a Get as a Get, and so on.
pub proof fn law_one_reply_per_request<T: Entity>(
    store: Contents<T>,
    msg: ResourceRequest<T>,
    minted: Key<T>,
)
    ensures
        match msg {
            ResourceRequest::Create { .. } => request_step::<T>(store, msg, minted).1 is Created,
            ResourceRequest::Get { .. } => request_step::<T>(store, msg, minted).1 is Found,
            ResourceRequest::Update { .. } => request_step::<T>(store, msg, minted).1 is Updated,
            ResourceRequest::Delete { .. } => request_step::<T>(store, msg, minted).1 is Deleted,
            ResourceRequest::Action { .. } => request_step::<T>(store, msg, minted).1 is Acted,
        },
{
}

/// A request that has been performed and not yet answered: the one reply it
/// is owed, with the channel that the request brought for it.
#[verifier::reject_recursive_types(T)]
#[allow(inconsistent_fields)]
pub enum PendingReply<T: Entity> {
    Created { reply: Result<T::Id, FrameworkError>, respond_to: Response<T::Id> },
    Found { reply: Result<Option<T>, FrameworkError>, respond_to: Response<Option<T>> },
    Updated { reply: Result<T, FrameworkError>, respond_to: Response<T> },
    Deleted { reply: Result<(), FrameworkError>, respond_to: Response<()> },
    Acted {
        reply: Result<T::ActionResult, FrameworkError>,
        respond_to: Response<T::ActionResult>,
    },
}

impl<T: Entity> PendingReply<T> {
    /// What the reply says.
    pub open spec fn content(self) -> ReplyContent<T> {
        match self {
            PendingReply::Created { reply, .. } => ReplyContent::Created(created_view::<T>(reply)),
            PendingReply::Found { reply, .. } => ReplyContent::Found(found_view::<T>(reply)),
            PendingReply::Updated { reply, .. } => ReplyContent::Updated(updated_view::<T>(reply)),
            PendingReply::Deleted { reply, .. } => ReplyContent::Deleted(reply_view(reply)),
            PendingReply::Acted { reply, .. } => ReplyContent::Acted(reply_view(reply)),
        }
    }

    /// Whether the reply goes out on the channel that `msg` brought.
    pub open spec fn answers(self, msg: ResourceRequest<T>) -> bool {
        match (self, msg) {
            (
                PendingReply::Created { respond_to: mine, .. },
                ResourceRequest::Create { respond_to, .. },
            ) => mine == respond_to,
            (
                PendingReply::Found { respond_to: mine, .. },
                ResourceRequest::Get { respond_to, .. },
            ) => mine == respond_to,
            (
                PendingReply::Updated { respond_to: mine, .. },
                ResourceRequest::Update { respond_to, .. },
            ) => mine == respond_to,
            (
                PendingReply::Deleted { respond_to: mine, .. },
                ResourceRequest::Delete { respond_to, .. },
            ) => mine == respond_to,
            (
                PendingReply::Acted { respond_to: mine, .. },
                ResourceRequest::Action { respond_to, .. },
            ) => mine == respond_to,
            _ => false,
        }
    }

    /// Sends the reply, which uses the channel up, and says whether the
    /// caller was still there to take it.
    pub fn send(self) -> (d: Delivery) {
        match self {
            PendingReply::Created { reply, respond_to } => deliver(respond_to, reply),
            PendingReply::Found { reply, respond_to } => deliver(respond_to, reply),
            PendingReply::Updated { reply, respond_to } => deliver(respond_to, reply),
            PendingReply::Deleted { reply, respond_to } => deliver(respond_to, reply),
            PendingReply::Acted { reply, respond_to } => deliver(respond_to, reply),
        }
    }
}

/// The worker that owns the instances of one entity type. It takes one
/// request at a time from its mailbox, performs it on its store, and answers
/// it once.
#[verifier::reject_recursive_types(T)]
pub struct ResourceActor<T: Entity, F: Fn() -> T::Id> {
    receiver: mpsc::Receiver<ResourceRequest<T>>,
    store: Store<T::Id, T>,
    next_id_fn: F,
}

impl<T: Entity, F: Fn() -> T::Id> ResourceActor<T, F> {
    /// The store is in order, and the generator can be called at any time.
    pub closed spec fn wf(&self) -> bool {
        &&& self.store.wf()
        &&& call_requires(self.next_id_fn, ())
    }

    /// What the store holds.
    pub closed spec fn view(&self) -> Contents<T> {
        self.store@
    }

    /// The generator of identifiers that the actor was made with.
    pub closed spec fn generator(&self) -> F {
        self.next_id_fn
    }

    /// Whether the generator may answer a call with `id`.
    pub open spec fn mints(&self, id: T::Id) -> bool {
        call_ensures(self.generator(), (), id)
    }

    /// Whether `id` can be the identifier minted while `msg` is performed.
    /// Only a Create mints one; for the other requests any value will do.
    pub open spec fn admits(&self, msg: ResourceRequest<T>, id: T::Id) -> bool {
        msg is Create ==> self.mints(id)
    }

    /// Opens a mailbox of the given capacity and returns the actor that
    /// reads from it, with an empty store, and a client that writes to it.
    pub fn new(buffer_size: usize, next_id_fn: F) -> (r: (Self, ResourceClient<T>))
        requires
            0 < buffer_size <= MAX_CAPACITY,
            call_requires(next_id_fn, ()),
        ensures
            r.0.wf(),
            r.0@ == Map::<Key<T>, T::V>::empty(),
            r.0.generator() == next_id_fn,
    {
        let (sender, receiver) = open_mailbox(buffer_size);
        let actor = ResourceActor { receiver, store: Store::new(), next_id_fn };
        (actor, ResourceClient::new(sender))
    }

    /// The receiving end of the mailbox, for the loop that feeds
    /// [`Self::handle_request`].
    pub fn mailbox(&mut self) -> (r: &mut mpsc::Receiver<ResourceRequest<T>>)
        ensures
            *r == old(self).inbox(),
            final(self).inbox() == *final(r),
            final(self).wf() == old(self).wf(),
            final(self)@ == old(self)@,
            final(self).generator() == old(self).generator(),
    {
        &mut self.receiver
    }

    /// The receiving end of the mailbox that the actor reads from.
    pub closed spec fn inbox(&self) -> mpsc::Receiver<ResourceRequest<T>> {
        self.receiver
    }

    /// How many instances the store holds.
    pub fn len(&self) -> (n: usize)
        requires
            self.wf(),
        ensures
            self@.dom().finite(),
            n == self@.len(),
    {
        self.store.len()
    }

    /// Performs the operation that `msg` asks for and returns the reply that
    /// it is owed, together with the channel that `msg` brought for it.
    pub fn perform(&mut self, msg: ResourceRequest<T>) -> (pending: PendingReply<T>)
        requires
            old(self).wf(),
        ensures
            final(self).wf(),
            final(self).generator() == old(self).generator(),
            pending.answers(msg),
            exists|id: T::Id|
                #[trigger] old(self).admits(msg, id) && (
                    final(self)@,
                    pending.content(),
                ) == request_step::<T>(old(self)@, msg, id@),
    {
        match msg {
            ResourceRequest::Create { payload, respond_to } => {
                let reply = self.create(payload);
                proof {
                    let id = choose|id: T::Id| #[trigger]
                        old(self).mints(id) && (self@, created_view::<T>(reply)) == create_step::<
                            T,
                        >(old(self)@, id@, payload);
                    assert(old(self).admits(msg, id) && (
                        self@,
                        ReplyContent::<T>::Created(created_view::<T>(reply)),
                    ) == request_step::<T>(old(self)@, msg, id@));
                }
                PendingReply::Created { reply, respond_to }
            },
            ResourceRequest::Get { id, respond_to } => {
                let reply = self.get(&id);
                assert(old(self).admits(msg, id) && (
                    self@,
                    ReplyContent::<T>::Found(found_view::<T>(reply)),
                ) == request_step::<T>(old(self)@, msg, id@));
                PendingReply::Found { reply, respond_to }
            },
            ResourceRequest::Update { id, patch, respond_to } => {
                let reply = self.update(&id, patch);
                assert(old(self).admits(msg, id) && (
                    self@,
                    ReplyContent::<T>::Updated(updated_view::<T>(reply)),
                ) == request_step::<T>(old(self)@, msg, id@));
                PendingReply::Updated { reply, respond_to }
            },
            ResourceRequest::Delete { id, respond_to } => {
                let reply = self.delete(&id);
                assert(old(self).admits(msg, id) && (
                    self@,
                    ReplyContent::<T>::Deleted(reply_view(reply)),
                ) == request_step::<T>(old(self)@, msg, id@));
                PendingReply::Deleted { reply, respond_to }
            },
            ResourceRequest::Action { id, action, respond_to } => {
                let reply = self.perform_action(&id, action);
                assert(old(self).admits(msg, id) && (
                    self@,
                    ReplyContent::<T>::Acted(reply_view(reply)),
                ) == request_step::<T>(old(self)@, msg, id@));
                PendingReply::Acted { reply, respond_to }
            },
        }
    }

    /// Handles one request taken from the mailbox: performs it, then sends
    /// its one reply. Whatever the entity's hooks return, the request is
    /// answered; a reply that nobody waits for is discarded.
    pub fn handle_request(&mut self, msg: ResourceRequest<T>) -> (d: Delivery)
        requires
            old(self).wf(),
        ensures
            final(self).wf(),
            final(self).generator() == old(self).generator(),
            exists|id: T::Id|
                #[trigger] old(self).admits(msg, id) && final(self)@
                    == request_step::<T>(old(self)@, msg, id@).0,
    {
        let pending = self.perform(msg);
        proof {
            let id = choose|id: T::Id|
                #[trigger] old(self).admits(msg, id) && (self@, pending.content())
                    == request_step::<T>(old(self)@, msg, id@);
            assert(old(self).admits(msg, id) && self@ == request_step::<T>(
                old(self)@,
                msg,
                id@,
            ).0);
        }
        pending.send()
    }

    /// Performs a Create with an identifier that was minted for it: builds
    /// the instance, runs its creation hook and files it. If either step
    /// fails, the failure is the reply and the store keeps no trace.
    pub fn create_with_id(&mut self, id: T::Id, payload: T::CreatePayload) -> (r: Result<
        T::Id,
        FrameworkError,
    >)
        requires
            old(self).wf(),
        ensures
            final(self).wf(),
            final(self).generator() == old(self).generator(),
            (final(self)@, created_view::<T>(r)) == create_step::<T>(old(self)@, id@, payload),
    {
        match T::from_create(id.duplicate(), payload) {
            Ok(mut item) => {
                match item.on_create() {
                    Ok(()) => {
                        self.store.insert(id.duplicate(), item);
                        Ok(id)
                    },
                    Err(reason) => Err(FrameworkError::Custom(reason)),
                }
            },
            Err(reason) => Err(FrameworkError::Custom(reason)),
        }
    }

    /// Performs a Create: mints an identifier, then proceeds as
    /// [`Self::create_with_id`]. The generator is not told of a failure.
    pub fn create(&mut self, payload: T::CreatePayload) -> (r: Result<T::Id, FrameworkError>)
        requires
            old(self).wf(),
        ensures
            final(self).wf(),
            final(self).generator() == old(self).generator(),
            exists|id: T::Id| #[trigger]
                old(self).mints(id) && (final(self)@, created_view::<T>(r)) == create_step::<T>(
                    old(self)@,
                    id@,
                    payload,
                ),
    {
        let id = (self.next_id_fn)();
        assert(self.mints(id));
        self.create_with_id(id, payload)
    }

    /// Performs a Get: a copy of the instance filed under `id`, or nothing.
    pub fn get(&self, id: &T::Id) -> (r: Result<Option<T>, FrameworkError>)
        requires
            self.wf(),
        ensures
            found_view::<T>(r) == get_step::<T>(self@, id@),
    {
        match self.store.get(id) {
            Some(item) => Ok(Some(item.duplicate())),
            None => Ok(None),
        }
    }

    /// Performs an Update: applies the patch in place and replies with a copy
    /// of the changed instance. There is no rollback: after a failure the
    /// instance stays as the hook left it.
    pub fn update(&mut self, id: &T::Id, patch: T::Patch) -> (r: Result<T, FrameworkError>)
        requires
            old(self).wf(),
        ensures
            final(self).wf(),
            final(self).generator() == old(self).generator(),
            (final(self)@, updated_view::<T>(r)) == update_step::<T>(old(self)@, id@, patch),
    {
        match self.store.get_mut(id) {
            Some(item) => {
                match item.on_update(patch) {
                    Ok(()) => Ok(item.duplicate()),
                    Err(reason) => Err(FrameworkError::Custom(reason)),
                }
            },
            None => Err(FrameworkError::NotFound(id.text())),
        }
    }

    /// Performs a Delete: removes the instance, unless its hook objects, in
    /// which case it stays.
    pub fn delete(&mut self, id: &T::Id) -> (r: Result<(), FrameworkError>)
        requires
            old(self).wf(),
        ensures
            final(self).wf(),
            final(self).generator() == old(self).generator(),
            (final(self)@, reply_view(r)) == delete_step::<T>(old(self)@, id@),
    {
        match self.store.get(id) {
            Some(item) => {
                match item.on_delete() {
                    Ok(()) => {
                        let _ = self.store.remove(id);
                        Ok(())
                    },
                    Err(reason) => Err(FrameworkError::Custom(reason)),
                }
            },
            None => Err(FrameworkError::NotFound(id.text())),
        }
    }

    /// Performs an Action: hands it to the instance and replies with what the
    /// instance answers, success or failure.
    pub fn perform_action(&mut self, id: &T::Id, action: T::Action) -> (r: Result<
        T::ActionResult,
        FrameworkError,
    >)
        requires
            old(self).wf(),
        ensures
            final(self).wf(),
            final(self).generator() == old(self).generator(),
            (final(self)@, reply_view(r)) == action_step::<T>(old(self)@, id@, action),
    {
        match self.store.get_mut(id) {
            Some(item) => {
                match item.handle_action(action) {
                    Ok(answer) => Ok(answer),
                    Err(reason) => Err(FrameworkError::Custom(reason)),
                }
            },
            None => Err(FrameworkError::NotFound(id.text())),
        }
    }
}

} // verus!
