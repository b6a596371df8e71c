use crate::actor::ResourceRequest;
use crate::entity::Entity;
use crate::error::reply_view;
use crate::error::Failure;
use crate::error::FrameworkError;
use crate::mailbox::open_reply;
use crate::mailbox::share_sender;
use tokio::sync::mpsc;
use tokio::sync::oneshot;
use vstd::prelude::*;

verus! {

/// The receiving end of the channel that a request carries for its reply.
pub type Reply<A> = oneshot::Receiver<Result<A, FrameworkError>>;

/// What became of a request.
pub enum Submission<A> {
    /// The mailbox did not take it: the actor had stopped.
    Refused,
    /// The mailbox took it, and the reply channel closed without a reply.
    Unanswered,
    /// The actor replied.
    Answered(Result<A, FrameworkError>),
}

impl<A> Submission<A> {
    /// What the caller gets: `ActorClosed` for a request that was refused,
    /// `ActorDropped` for one that was never answered, and the actor's reply
    /// unchanged otherwise.
    pub fn outcome(self) -> (r: Result<A, FrameworkError>)
        ensures
            match self {
                Submission::Refused => r == Err::<A, FrameworkError>(FrameworkError::ActorClosed),
                Submission::Unanswered => r == Err::<A, FrameworkError>(
                    FrameworkError::ActorDropped,
                ),
                Submission::Answered(reply) => r == reply,
            },
    {
        match self {
            Submission::Refused => Err(FrameworkError::ActorClosed),
            Submission::Unanswered => Err(FrameworkError::ActorDropped),
            Submission::Answered(reply) => reply,
        }
    }
}

/// A handle on an actor's mailbox. It can be cloned and shared; each request
/// it prepares carries a reply channel of its own.
#[verifier::reject_recursive_types(T)]
pub struct ResourceClient<T: Entity> {
    sender: mpsc::Sender<ResourceRequest<T>>,
}

impl<T: Entity> ResourceClient<T> {
    /// A client on the sending end of a mailbox.
    pub fn new(sender: mpsc::Sender<ResourceRequest<T>>) -> (r: Self)
        ensures
            r.sender_spec() == sender,
    {
        ResourceClient { sender }
    }

    /// The sending end that the client holds.
    pub closed spec fn sender_spec(&self) -> mpsc::Sender<ResourceRequest<T>> {
        self.sender
    }

    /// The sending end of the mailbox, on which prepared requests go out.
    pub fn sender(&self) -> (r: &mpsc::Sender<ResourceRequest<T>>)
        ensures
            *r == self.sender_spec(),
    {
        &self.sender
    }

    /// A Create request for `payload`, and the end on which its reply comes.
    pub fn create_request(&self, payload: T::CreatePayload) -> (r: (
        ResourceRequest<T>,
        Reply<T::Id>,
    ))
        ensures
            r.0 matches ResourceRequest::Create { payload: p, .. } && p == payload,
    {
        let (respond_to, response) = open_reply();
        (ResourceRequest::Create { payload, respond_to }, response)
    }

    /// A Get request for `id`, and the end on which its reply comes.
    pub fn get_request(&self, id: T::Id) -> (r: (ResourceRequest<T>, Reply<Option<T>>))
        ensures
            r.0 matches ResourceRequest::Get { id: i, .. } && i == id,
    {
        let (respond_to, response) = open_reply();
        (ResourceRequest::Get { id, respond_to }, response)
    }

    /// An Update request for `id` and `patch`, and the end on which its reply
    /// comes.
    pub fn update_request(&self, id: T::Id, patch: T::Patch) -> (r: (ResourceRequest<T>, Reply<T>))
        ensures
            r.0 matches ResourceRequest::Update { id: i, patch: p, .. } && i == id && p == patch,
    {
        let (respond_to, response) = open_reply();
        (ResourceRequest::Update { id, patch, respond_to }, response)
    }

    /// A Delete request for `id`, and the end on which its reply comes.
    pub fn delete_request(&self, id: T::Id) -> (r: (ResourceRequest<T>, Reply<()>))
        ensures
            r.0 matches ResourceRequest::Delete { id: i, .. } && i == id,
    {
        let (respond_to, response) = open_reply();
        (ResourceRequest::Delete { id, respond_to }, response)
    }

    /// An Action request for `id` and `action`, and the end on which its reply
    /// comes.
    pub fn action_request(&self, id: T::Id, action: T::Action) -> (r: (
        ResourceRequest<T>,
        Reply<T::ActionResult>,
    ))
        ensures
            r.0 matches ResourceRequest::Action { id: i, action: a, .. } && i == id && a
                == action,
    {
        let (respond_to, response) = open_reply();
        (ResourceRequest::Action { id, action, respond_to }, response)
    }
}

impl<T: Entity> Clone for ResourceClient<T> {
    fn clone(&self) -> (r: Self) {
        ResourceClient { sender: share_sender(&self.sender) }
    }
}

} // verus!
