use crate::entity::Entity;
use crate::entity::EntityId;
use crate::error::Failure;
use crate::store::Key;
use vstd::prelude::*;

verus! {

/// What a store holds: the view of each instance under the view of its
/// identifier.
pub type Contents<T> = Map<Key<T>, <T as View>::V>;

/// The reply to an operation that names an identifier the store lacks.
pub open spec fn not_found<T: Entity>(id: Key<T>) -> Failure {
    Failure::NotFound(<T::Id as EntityId>::shown(id))
}

/// A hook's result as a reply: a success is kept, a failure text is wrapped
/// unchanged.
pub open spec fn as_reply<A>(r: Result<A, Seq<char>>) -> Result<A, Failure> {
    match r {
        Ok(a) => Ok(a),
        Err(reason) => Err(Failure::Custom(reason)),
    }
}

/// The instance that a creation stores: built by `from_create`, then passed
/// through `on_create`. The first failure of the two is the result.
pub open spec fn built<T: Entity>(id: Key<T>, payload: T::CreatePayload) -> Result<
    T::V,
    Seq<char>,
> {
    match T::created(id, payload) {
        Ok(fresh) => match T::after_create(fresh).1 {
            Ok(()) => Ok(T::after_create(fresh).0),
            Err(reason) => Err(reason),
        },
        Err(reason) => Err(reason),
    }
}

/// Create, with the identifier that was minted for it: the store afterwards,
/// and the reply.
pub open spec fn create_step<T: Entity>(
    store: Contents<T>,
    id: Key<T>,
    payload: T::CreatePayload,
) -> (Contents<T>, Result<Key<T>, Failure>) {
    match built::<T>(id, payload) {
        Ok(item) => (store.insert(id, item), Ok(id)),
        Err(reason) => (store, Err(Failure::Custom(reason))),
    }
}

/// Get: the reply. Absence is no failure. The store is not touched.
pub open spec fn get_step<T: Entity>(store: Contents<T>, id: Key<T>) -> Result<
    Option<T::V>,
    Failure,
> {
    if store.contains_key(id) {
        Ok(Some(store[id]))
    } else {
        Ok(None)
    }
}

/// Update: the store afterwards, and the reply. The instance stays as the
/// hook left it, whether the hook succeeded or not.
pub open spec fn update_step<T: Entity>(store: Contents<T>, id: Key<T>, patch: T::Patch) -> (
    Contents<T>,
    Result<T::V, Failure>,
) {
    if store.contains_key(id) {
        let (item, r) = T::after_update(store[id], patch);
        (
            store.insert(id, item),
            match r {
                Ok(()) => Ok(item),
                Err(reason) => Err(Failure::Custom(reason)),
            },
        )
    } else {
        (store, Err(not_found::<T>(id)))
    }
}

/// Delete: the store afterwards, and the reply. The instance leaves the store
/// only if the hook agrees.
pub open spec fn delete_step<T: Entity>(store: Contents<T>, id: Key<T>) -> (
    Contents<T>,
    Result<(), Failure>,
) {
    if store.contains_key(id) {
        match T::before_delete(store[id]) {
            Ok(()) => (store.remove(id), Ok(())),
            Err(reason) => (store, Err(Failure::Custom(reason))),
        }
    } else {
        (store, Err(not_found::<T>(id)))
    }
}

/// Action: the store afterwards, and the reply. The instance stays as the
/// handler left it; the handler's result is the reply.
pub open spec fn action_step<T: Entity>(store: Contents<T>, id: Key<T>, action: T::Action) -> (
    Contents<T>,
    Result<T::ActionResult, Failure>,
) {
    if store.contains_key(id) {
        let (item, r) = T::after_action(store[id], action);
        (store.insert(id, item), as_reply(r))
    } else {
        (store, Err(not_found::<T>(id)))
    }
}

/// After a creation that succeeded with an identifier, a lookup of that
/// identifier finds the instance built from the payload.
pub proof fn law_create_then_get<T: Entity>(
    store: Contents<T>,
    id: Key<T>,
    payload: T::CreatePayload,
)
    requires
        create_step::<T>(store, id, payload).1 is Ok,
    ensures
        create_step::<T>(store, id, payload).1 == Ok::<Key<T>, Failure>(id),
        built::<T>(id, payload) is Ok,
        get_step::<T>(create_step::<T>(store, id, payload).0, id) == Ok::<Option<T::V>, Failure>(
            Some(built::<T>(id, payload)->Ok_0),
        ),
{
}

/// A creation leaves every other identifier as it was, so what a lookup finds
/// stays until an operation on that very identifier changes it.
pub proof fn law_create_keeps_others<T: Entity>(
    store: Contents<T>,
    id: Key<T>,
    payload: T::CreatePayload,
    other: Key<T>,
)
    requires
        other != id,
    ensures
        get_step::<T>(create_step::<T>(store, id, payload).0, other) == get_step::<T>(
            store,
            other,
        ),
{
}

/// An update, a deletion or an action on one identifier leaves what is filed
/// under any other identifier as it was.
pub proof fn law_operations_keep_others<T: Entity>(
    store: Contents<T>,
    id: Key<T>,
    patch: T::Patch,
    action: T::Action,
    other: Key<T>,
)
    requires
        other != id,
    ensures
        get_step::<T>(update_step::<T>(store, id, patch).0, other) == get_step::<T>(store, other),
        get_step::<T>(delete_step::<T>(store, id).0, other) == get_step::<T>(store, other),
        get_step::<T>(action_step::<T>(store, id, action).0, other) == get_step::<T>(
            store,
            other,
        ),
{
}

/// A creation that fails leaves the store exactly as it was: a lookup of the
/// identifier that was minted for it finds what it found before, and nothing
/// if the identifier was new.
pub proof fn law_failed_create_leaves_no_trace<T: Entity>(
    store: Contents<T>,
    id: Key<T>,
    payload: T::CreatePayload,
)
    requires
        T::created(id, payload) is Err || (T::created(id, payload) matches Ok(fresh)
            && T::after_create(fresh).1 is Err),
    ensures
        create_step::<T>(store, id, payload).1 is Err,
        create_step::<T>(store, id, payload).0 == store,
        !store.contains_key(id) ==> get_step::<T>(create_step::<T>(store, id, payload).0, id)
            == Ok::<Option<T::V>, Failure>(None),
{
}

/// Update, Delete and Action on an identifier that the store does not hold
/// each reply `NotFound` and change nothing.
pub proof fn law_not_found<T: Entity>(
    store: Contents<T>,
    id: Key<T>,
    patch: T::Patch,
    action: T::Action,
)
    requires
        !store.contains_key(id),
    ensures
        update_step::<T>(store, id, patch) == (store, Err::<T::V, Failure>(not_found::<T>(id))),
        delete_step::<T>(store, id) == (store, Err::<(), Failure>(not_found::<T>(id))),
        action_step::<T>(store, id, action) == (
            store,
            Err::<T::ActionResult, Failure>(not_found::<T>(id)),
        ),
{
}

/// Once a deletion has succeeded, the identifier is gone: Update, a second
/// Delete and Action on it each reply `NotFound`, and a lookup finds nothing.
pub proof fn law_deleted_is_not_found<T: Entity>(
    store: Contents<T>,
    id: Key<T>,
    patch: T::Patch,
    action: T::Action,
)
    requires
        delete_step::<T>(store, id).1 is Ok,
    ensures
        ({
            let after = delete_step::<T>(store, id).0;
            &&& !after.contains_key(id)
            &&& get_step::<T>(after, id) == Ok::<Option<T::V>, Failure>(None)
            &&& update_step::<T>(after, id, patch).1 == Err::<T::V, Failure>(not_found::<T>(id))
            &&& delete_step::<T>(after, id).1 == Err::<(), Failure>(not_found::<T>(id))
            &&& action_step::<T>(after, id, action).1 == Err::<T::ActionResult, Failure>(
                not_found::<T>(id),
            )
        }),
{
}

/// The identifiers that a run of creations hands out, in order: one for each
/// creation that succeeded.
pub open spec fn handed_out<T: Entity>(
    store: Contents<T>,
    minted: Seq<Key<T>>,
    payloads: Seq<T::CreatePayload>,
) -> Seq<Key<T>>
    recommends
        minted.len() == payloads.len(),
    decreases minted.len(),
{
    if minted.len() == 0 || payloads.len() == 0 {
        Seq::empty()
    } else {
        let (next, reply) = create_step::<T>(store, minted[0], payloads[0]);
        let rest = handed_out::<T>(next, minted.drop_first(), payloads.drop_first());
        match reply {
            Ok(id) => seq![id] + rest,
            Err(_) => rest,
        }
    }
}

/// Every identifier that a run of creations hands out is one that was
/// minted for that run, at a position that no earlier one came from.
proof fn lemma_handed_out_from_minted<T: Entity>(
    store: Contents<T>,
    minted: Seq<Key<T>>,
    payloads: Seq<T::CreatePayload>,
)
    requires
        minted.len() == payloads.len(),
        minted.no_duplicates(),
    ensures
        handed_out::<T>(store, minted, payloads).no_duplicates(),
        forall|id: Key<T>|
            handed_out::<T>(store, minted, payloads).contains(id) ==> minted.contains(id),
    decreases minted.len(),
{
    if minted.len() > 0 {
        let (next, reply) = create_step::<T>(store, minted[0], payloads[0]);
        let rest = handed_out::<T>(next, minted.drop_first(), payloads.drop_first());
        lemma_handed_out_from_minted::<T>(next, minted.drop_first(), payloads.drop_first());
        assert forall|id: Key<T>| rest.contains(id) implies minted.contains(id) && id
            != minted[0] by {
            let tail = minted.drop_first();
            assert(tail.contains(id));
            let j = choose|j: int| 0 <= j < tail.len() && tail[j] == id;
            assert(minted[j + 1] == id);
        }
        match reply {
            Ok(id) => {
                let all = seq![id] + rest;
                assert(id == minted[0]);
                assert forall|a: int, b: int| 0 <= a < all.len() && 0 <= b < all.len() && a
                    != b implies all[a] != all[b] by {
                    if a > 0 {
                        assert(rest.contains(rest[a - 1]));
                    }
                    if b > 0 {
                        assert(rest.contains(rest[b - 1]));
                    }
                }
                assert forall|q: Key<T>| all.contains(q) implies minted.contains(q) by {
                    let j = choose|j: int| 0 <= j < all.len() && all[j] == q;
                    if j > 0 {
                        assert(rest.contains(rest[j - 1]));
                    }
                }
            },
            Err(_) => {},
        }
    }
}

/// Where the generator never mints an identifier twice, the identifiers that
/// successful creations return are pairwise distinct.
pub proof fn law_unique_ids<T: Entity>(
    store: Contents<T>,
    minted: Seq<Key<T>>,
    payloads: Seq<T::CreatePayload>,
)
    requires
        minted.len() == payloads.len(),
        minted.no_duplicates(),
    ensures
        handed_out::<T>(store, minted, payloads).no_duplicates(),
{
    lemma_handed_out_from_minted::<T>(store, minted, payloads);
}

} // verus!
