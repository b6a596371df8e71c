use crate::text::decimal;
use crate::text::decimal_text;
use vstd::prelude::*;

verus! {

/// The content of a hook's result: a success is kept as it is, the text of a
/// failure is taken by its characters.
pub open spec fn outcome_view<A>(r: Result<A, String>) -> Result<A, Seq<char>> {
    match r {
        Ok(a) => Ok(a),
        Err(e) => Err(e@),
    }
}

/// A key under which an actor files its entities.
///
/// Two identifiers are the same key exactly when their views are equal.
pub trait EntityId: View + Sized {
    /// The text that stands for an identifier in messages.
    spec fn shown(v: Self::V) -> Seq<char>;

    /// Whether both identifiers are the same key.
    fn same(&self, other: &Self) -> (r: bool)
        ensures
            r == (self@ == other@),
    ;

    /// A second handle on the same key.
    fn duplicate(&self) -> (r: Self)
        ensures
            r@ == self@,
    ;

    /// The identifier as text, for messages.
    fn text(&self) -> (r: String)
        ensures
            r@ == Self::shown(self@),
    ;
}

impl EntityId for String {
    open spec fn shown(v: Seq<char>) -> Seq<char> {
        v
    }

    fn same(&self, other: &Self) -> (r: bool) {
        *self == *other
    }

    fn duplicate(&self) -> (r: Self) {
        self.clone()
    }

    fn text(&self) -> (r: String) {
        self.clone()
    }
}

impl EntityId for u64 {
    open spec fn shown(v: u64) -> Seq<char> {
        decimal_text(v as nat)
    }

    fn same(&self, other: &Self) -> (r: bool) {
        *self == *other
    }

    fn duplicate(&self) -> (r: Self) {
        *self
    }

    fn text(&self) -> (r: String) {
        decimal(*self)
    }
}

/// What a type must offer to be managed by a resource actor.
///
/// The hooks are called by the actor alone. Each has a spec function beside
/// it that says, over views, what the hook returns and how it leaves the
/// instance, so that the actor's own contracts can be exact. A hook's failure
/// is a text, which the actor passes on unchanged.
pub trait Entity: View + Sized {
    /// The key of an instance in the store.
    type Id: EntityId;

    /// What is needed to build a new instance.
    type CreatePayload;

    /// A partial update.
    type Patch;

    /// An operation of the entity's own, beyond create, read, update, delete.
    type Action;

    /// What such an operation answers.
    type ActionResult;

    /// What `from_create` builds from an identifier and a payload.
    open spec fn created(id: <Self::Id as View>::V, payload: Self::CreatePayload) -> Result<
        Self::V,
        Seq<char>,
    > {
        arbitrary()
    }

    /// How `on_create` leaves a freshly built instance, and what it returns.
    /// Unless an entity says otherwise, the hook does nothing and succeeds.
    open spec fn after_create(v: Self::V) -> (Self::V, Result<(), Seq<char>>) {
        (v, Ok(()))
    }

    /// How `on_update` leaves an instance, and what it returns.
    open spec fn after_update(v: Self::V, patch: Self::Patch) -> (Self::V, Result<(), Seq<char>>) {
        arbitrary()
    }

    /// What `on_delete` returns for an instance. Unless an entity says
    /// otherwise, the hook succeeds.
    open spec fn before_delete(v: Self::V) -> Result<(), Seq<char>> {
        Ok(())
    }

    /// How `handle_action` leaves an instance, and what it returns.
    open spec fn after_action(v: Self::V, action: Self::Action) -> (
        Self::V,
        Result<Self::ActionResult, Seq<char>>,
    ) {
        arbitrary()
    }

    /// Builds an instance. The identifier is minted by the actor.
    fn from_create(id: Self::Id, payload: Self::CreatePayload) -> (r: Result<Self, String>)
        ensures
            match r {
                Ok(item) => Self::created(id@, payload) == Ok::<Self::V, Seq<char>>(item@),
                Err(e) => Self::created(id@, payload) == Err::<Self::V, Seq<char>>(e@),
            },
    ;

    /// Runs after construction and before the instance is stored. A failure
    /// aborts the creation.
    fn on_create(&mut self) -> (r: Result<(), String>)
        ensures
            (final(self)@, outcome_view(r)) == Self::after_create(old(self)@),
    ;

    /// Applies a partial update in place.
    fn on_update(&mut self, patch: Self::Patch) -> (r: Result<(), String>)
        ensures
            (final(self)@, outcome_view(r)) == Self::after_update(old(self)@, patch),
    ;

    /// Runs before the instance is removed. A failure keeps it in the store.
    fn on_delete(&self) -> (r: Result<(), String>)
        ensures
            outcome_view(r) == Self::before_delete(self@),
    ;

    /// Performs an operation of the entity's own on the instance.
    fn handle_action(&mut self, action: Self::Action) -> (r: Result<Self::ActionResult, String>)
        ensures
            (final(self)@, outcome_view(r)) == Self::after_action(old(self)@, action),
    ;

    /// A copy of the instance, as a reply carries it.
    fn duplicate(&self) -> (r: Self)
        ensures
            r@ == self@,
    ;
}

} // verus!
