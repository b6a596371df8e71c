use vstd::prelude::*;
use vstd::string::StringExecFns;

verus! {

/// The failures that a caller of the framework can see.
///
/// `ActorClosed` and `ActorDropped` are raised on the client's side of the
/// mailbox; `NotFound` and `Custom` are replies of the actor itself.
#[derive(Debug, PartialEq)]
pub enum FrameworkError {
    /// The request could not be enqueued: the actor has stopped.
    ActorClosed,
    /// The actor took the request and went away without replying.
    ActorDropped,
    /// The operation named an identifier that the store does not hold.
    NotFound(String),
    /// A failure that an entity's own logic reported, passed on unchanged.
    Custom(String),
}

/// The mathematical content of a [`FrameworkError`]: the texts are taken by
/// their characters.
pub ghost enum Failure {
    ActorClosed,
    ActorDropped,
    NotFound(Seq<char>),
    Custom(Seq<char>),
}

impl Failure {
    /// The sentence that describes the failure.
    pub open spec fn text(self) -> Seq<char> {
        match self {
            Failure::ActorClosed => "Actor closed"@,
            Failure::ActorDropped => "Actor dropped response channel"@,
            Failure::NotFound(id) => "Item not found: "@ + id,
            Failure::Custom(reason) => "Custom error: "@ + reason,
        }
    }
}

impl View for FrameworkError {
    type V = Failure;

    open spec fn view(&self) -> Failure {
        match self {
            FrameworkError::ActorClosed => Failure::ActorClosed,
            FrameworkError::ActorDropped => Failure::ActorDropped,
            FrameworkError::NotFound(id) => Failure::NotFound(id@),
            FrameworkError::Custom(reason) => Failure::Custom(reason@),
        }
    }
}

impl FrameworkError {
    /// The sentence that describes this failure, as a caller would print it.
    pub fn message(&self) -> (r: String)
        ensures
            r@ == self@.text(),
    {
        match self {
            FrameworkError::ActorClosed => String::from_str("Actor closed"),
            FrameworkError::ActorDropped => String::from_str("Actor dropped response channel"),
            FrameworkError::NotFound(id) => String::from_str("Item not found: ").concat(
                id.as_str(),
            ),
            FrameworkError::Custom(reason) => String::from_str("Custom error: ").concat(
                reason.as_str(),
            ),
        }
    }

    /// Wraps the text of an entity-level failure.
    pub fn custom(reason: String) -> (r: FrameworkError)
        ensures
            r@ == Failure::Custom(reason@),
    {
        FrameworkError::Custom(reason)
    }
}

/// The content of a reply: a success is kept as it is, a failure is taken by
/// its view.
pub open spec fn reply_view<A>(r: Result<A, FrameworkError>) -> Result<A, Failure> {
    match r {
        Ok(a) => Ok(a),
        Err(e) => Err(e@),
    }
}

} // verus!
