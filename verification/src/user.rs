use crate::entity::Entity;
use crate::error::FrameworkError;
use vstd::prelude::*;
use vstd::string::StringExecFns;

verus! {

/// A registered user.
#[derive(Debug, Clone, PartialEq)]
pub struct User {
    pub id: String,
    pub name: String,
    pub email: String,
}

/// The content of a [`User`].
pub ghost struct UserView {
    pub id: Seq<char>,
    pub name: Seq<char>,
    pub email: Seq<char>,
}

impl View for User {
    type V = UserView;

    open spec fn view(&self) -> UserView {
        UserView { id: self.id@, name: self.name@, email: self.email@ }
    }
}

/// What is needed to create a user.
#[derive(Debug, Clone)]
pub struct UserCreate {
    pub name: String,
    pub email: String,
}

/// A partial update of a user: each field that is present replaces the
/// user's.
#[derive(Debug, Clone)]
pub struct UserPatch {
    pub name: Option<String>,
    pub email: Option<String>,
}

/// What can go wrong with an operation on users.
#[derive(Debug, Clone, PartialEq)]
pub enum UserError {
    NotFound(String),
    AlreadyExists(String),
    ValidationError(String),
    DatabaseError(String),
    ActorCommunicationError(String),
}

/// The content of a [`UserError`].
pub ghost enum UserFailure {
    NotFound(Seq<char>),
    AlreadyExists(Seq<char>),
    ValidationError(Seq<char>),
    DatabaseError(Seq<char>),
    ActorCommunicationError(Seq<char>),
}

impl UserFailure {
    /// The sentence that describes the failure.
    pub open spec fn text(self) -> Seq<char> {
        match self {
            UserFailure::NotFound(id) => "User not found: "@ + id,
            UserFailure::AlreadyExists(id) => "User already exists: "@ + id,
            UserFailure::ValidationError(reason) => "User validation error: "@ + reason,
            UserFailure::DatabaseError(reason) => "User database error: "@ + reason,
            UserFailure::ActorCommunicationError(reason) => "Actor communication error: "@
                + reason,
        }
    }
}

impl View for UserError {
    type V = UserFailure;

    open spec fn view(&self) -> UserFailure {
        match self {
            UserError::NotFound(id) => UserFailure::NotFound(id@),
            UserError::AlreadyExists(id) => UserFailure::AlreadyExists(id@),
            UserError::ValidationError(reason) => UserFailure::ValidationError(reason@),
            UserError::DatabaseError(reason) => UserFailure::DatabaseError(reason@),
            UserError::ActorCommunicationError(reason) => UserFailure::ActorCommunicationError(
                reason@,
            ),
        }
    }
}

impl UserError {
    /// The sentence that describes this failure.
    pub fn message(&self) -> (r: String)
        ensures
            r@ == self@.text(),
    {
        match self {
            UserError::NotFound(id) => String::from_str("User not found: ").concat(id.as_str()),
            UserError::AlreadyExists(id) => String::from_str("User already exists: ").concat(
                id.as_str(),
            ),
            UserError::ValidationError(reason) => String::from_str(
                "User validation error: ",
            ).concat(reason.as_str()),
            UserError::DatabaseError(reason) => String::from_str("User database error: ").concat(
                reason.as_str(),
            ),
            UserError::ActorCommunicationError(reason) => String::from_str(
                "Actor communication error: ",
            ).concat(reason.as_str()),
        }
    }

    /// A failure of the framework as a caller of the user client sees it: a
    /// communication error that carries the framework's sentence.
    pub fn from_framework(e: &FrameworkError) -> (r: UserError)
        ensures
            r@ == UserFailure::ActorCommunicationError(e@.text()),
    {
        UserError::ActorCommunicationError(e.message())
    }

    /// The reply to a user operation as the user client returns it: a success
    /// unchanged, a failure as [`Self::from_framework`] gives it.
    pub fn relay<A>(reply: Result<A, FrameworkError>) -> (r: Result<A, UserError>)
        ensures
            match reply {
                Ok(a) => r == Ok::<A, UserError>(a),
                Err(e) => r matches Err(u) && u@ == UserFailure::ActorCommunicationError(
                    e@.text(),
                ),
            },
    {
        match reply {
            Ok(a) => Ok(a),
            Err(e) => Err(UserError::from_framework(&e)),
        }
    }
}

impl User {
    /// A user that has no identifier yet: the actor that stores it gives it
    /// one.
    pub fn new(name: &str, email: &str) -> (r: Self)
        ensures
            r@ == (UserView { id: Seq::empty(), name: name@, email: email@ }),
    {
        User { id: String::new(), name: String::from_str(name), email: String::from_str(email) }
    }

    /// The payload that creates a user with this user's name and address.
    pub fn into_create(self) -> (r: UserCreate)
        ensures
            r.name == self.name,
            r.email == self.email,
    {
        UserCreate { name: self.name, email: self.email }
    }
}

/// The text of a field after a patch: the patch's, where it has one.
pub open spec fn patched_text(current: Seq<char>, patch: Option<String>) -> Seq<char> {
    match patch {
        Some(text) => text@,
        None => current,
    }
}

impl Entity for User {
    type Id = String;

    type CreatePayload = UserCreate;

    type Patch = UserPatch;

    type Action = ();

    type ActionResult = ();

    open spec fn created(id: Seq<char>, payload: UserCreate) -> Result<UserView, Seq<char>> {
        Ok(UserView { id, name: payload.name@, email: payload.email@ })
    }

    open spec fn after_update(v: UserView, patch: UserPatch) -> (UserView, Result<(), Seq<char>>) {
        (
            UserView {
                id: v.id,
                name: patched_text(v.name, patch.name),
                email: patched_text(v.email, patch.email),
            },
            Ok(()),
        )
    }

    open spec fn after_action(v: UserView, action: ()) -> (UserView, Result<(), Seq<char>>) {
        (v, Ok(()))
    }

    fn from_create(id: String, payload: UserCreate) -> (r: Result<Self, String>) {
        Ok(User { id, name: payload.name, email: payload.email })
    }

    fn on_create(&mut self) -> (r: Result<(), String>) {
        Ok(())
    }

    fn on_update(&mut self, patch: UserPatch) -> (r: Result<(), String>) {
        if let Some(name) = patch.name {
            self.name = name;
        }
        if let Some(email) = patch.email {
            self.email = email;
        }
        Ok(())
    }

    fn on_delete(&self) -> (r: Result<(), String>) {
        Ok(())
    }

    fn handle_action(&mut self, action: ()) -> (r: Result<(), String>) {
        Ok(())
    }

    fn duplicate(&self) -> (r: Self) {
        User { id: self.id.clone(), name: self.name.clone(), email: self.email.clone() }
    }
}

} // verus!
