//! Language-neutral capability request routing.
//!
//! A router holds the explicitly granted capabilities, each with its handler.
//! Dispatching a request first checks the grant, then asks the request's task
//! registry for a task identifier; only when both agree does work start.
use std::collections::HashMap;
use std::hash::Hash;

use vstd::prelude::*;
use vstd::std_specs::hash::obeys_key_model;

use super::error::{cancelled_model, denied_model, RuntimeError};
use super::task::{ContextModel, ContextState};

verus! {

/// Routes requests through an explicitly granted set of capabilities, each
/// associated with the handler that serves it.
pub struct Router<Key, Handler> {
    handlers: HashMap<Key, Handler>,
}

impl<Key, Handler> View for Router<Key, Handler> {
    type V = Map<Key, Handler>;

    closed spec fn view(&self) -> Map<Key, Handler> {
        self.handlers@
    }
}

/// The grants after granting `handler` for `key`: an existing grant is kept,
/// otherwise the key is associated with the handler.
pub open spec fn with_grant<Key, Handler>(grants: Map<Key, Handler>, key: Key, handler: Handler) -> Map<Key, Handler> {
    if grants.contains_key(key) {
        grants
    } else {
        grants.insert(key, handler)
    }
}

/// Granting keeps an existing grant untouched and otherwise adds exactly the
/// new key with its handler, leaving every other key as it was.
pub proof fn lemma_grant_rule<Key, Handler>(grants: Map<Key, Handler>, key: Key, handler: Handler, other: Key)
    ensures
        grants.contains_key(key) ==> with_grant(grants, key, handler) == grants,
        !grants.contains_key(key) ==> with_grant(grants, key, handler).contains_key(key)
            && with_grant(grants, key, handler)[key] == handler,
        other != key ==> (with_grant(grants, key, handler).contains_key(other) == grants.contains_key(other)),
        other != key && grants.contains_key(other) ==> with_grant(grants, key, handler)[other] == grants[other],
{
}

/// A call that changes the grants of a router.
pub enum GrantOp<Key, Handler> {
    /// [`Router::grant`] of a key with a handler.
    Grant(Key, Handler),
    /// [`Router::revoke`] of a key.
    Revoke(Key),
}

/// The grants after one call.
pub open spec fn grant_step<Key, Handler>(grants: Map<Key, Handler>, op: GrantOp<Key, Handler>) -> Map<Key, Handler> {
    match op {
        GrantOp::Grant(key, handler) => with_grant(grants, key, handler),
        GrantOp::Revoke(key) => grants.remove(key),
    }
}

/// The grants after a history of calls, applied in order.
pub open spec fn grant_history<Key, Handler>(grants: Map<Key, Handler>, ops: Seq<GrantOp<Key, Handler>>) -> Map<Key, Handler>
    decreases ops.len(),
{
    if ops.len() == 0 {
        grants
    } else {
        grant_step(grant_history(grants, ops.drop_last()), ops.last())
    }
}

/// Whether a call grants `key`.
pub open spec fn grants_key<Key, Handler>(op: GrantOp<Key, Handler>, key: Key) -> bool {
    op matches GrantOp::Grant(k, _) && k == key
}

/// Whether a call revokes `key`.
pub open spec fn revokes_key<Key, Handler>(op: GrantOp<Key, Handler>, key: Key) -> bool {
    op matches GrantOp::Revoke(k) && k == key
}

/// Whether some call of the history grants `key` and no later call revokes it.
pub open spec fn granted_and_not_revoked<Key, Handler>(ops: Seq<GrantOp<Key, Handler>>, key: Key) -> bool {
    exists|i: int|
        0 <= i < ops.len() && #[trigger] grants_key(ops[i], key) && forall|j: int|
            i < j < ops.len() ==> !#[trigger] revokes_key(ops[j], key)
}

/// Starting from a router with no grants, a capability is granted exactly
/// when some call granted it and no later call revoked it.
pub proof fn lemma_granted_by_history<Key, Handler>(ops: Seq<GrantOp<Key, Handler>>, key: Key)
    ensures
        grant_history(Map::<Key, Handler>::empty(), ops).contains_key(key) <==> granted_and_not_revoked(
            ops,
            key,
        ),
    decreases ops.len(),
{
    if ops.len() > 0 {
        let prev = ops.drop_last();
        let n = ops.len() - 1;
        lemma_granted_by_history(prev, key);
        if grants_key(ops[n], key) {
            assert(grants_key(ops[n], key));
            assert(granted_and_not_revoked(ops, key));
        } else if revokes_key(ops[n], key) {
            assert(!grant_history(Map::<Key, Handler>::empty(), ops).contains_key(key));
            if granted_and_not_revoked(ops, key) {
                let i = choose|i: int|
                    0 <= i < ops.len() && #[trigger] grants_key(ops[i], key) && forall|j: int|
                        i < j < ops.len() ==> !#[trigger] revokes_key(ops[j], key);
                assert(i != n);
                assert(!revokes_key(ops[n], key));
            }
        } else {
            assert(grant_history(Map::<Key, Handler>::empty(), ops).contains_key(key)
                == grant_history(Map::<Key, Handler>::empty(), prev).contains_key(key));
            if granted_and_not_revoked(ops, key) {
                let i = choose|i: int|
                    0 <= i < ops.len() && #[trigger] grants_key(ops[i], key) && forall|j: int|
                        i < j < ops.len() ==> !#[trigger] revokes_key(ops[j], key);
                assert(i != n);
                assert(prev[i] == ops[i]);
                assert forall|j: int| i < j < prev.len() implies !#[trigger] revokes_key(prev[j], key) by {
                    assert(prev[j] == ops[j]);
                    assert(!revokes_key(ops[j], key));
                }
                assert(grants_key(prev[i], key));
                assert(granted_and_not_revoked(prev, key));
            }
            if granted_and_not_revoked(prev, key) {
                let i = choose|i: int|
                    0 <= i < prev.len() && #[trigger] grants_key(prev[i], key) && forall|j: int|
                        i < j < prev.len() ==> !#[trigger] revokes_key(prev[j], key);
                assert(prev[i] == ops[i]);
                assert forall|j: int| i < j < ops.len() implies !#[trigger] revokes_key(ops[j], key) by {
                    if j < n {
                        assert(prev[j] == ops[j]);
                        assert(!revokes_key(prev[j], key));
                    }
                }
                assert(grants_key(ops[i], key));
                assert(granted_and_not_revoked(ops, key));
            }
        }
    }
}

impl<Key, Handler> Router<Key, Handler> {
    /// The grants of a router are finitely many, so counting them is meaningful.
    pub proof fn lemma_grants_finite(router: &Router<Key, Handler>)
        ensures
            router@.dom().finite(),
    {
    }
}

impl<Key: Eq + Hash, Handler> Router<Key, Handler> {
    /// Creates a router with no granted capabilities.
    pub fn new() -> (router: Self)
        ensures
            router@ == Map::<Key, Handler>::empty(),
    {
        Router { handlers: HashMap::new() }
    }

    /// Grants a capability by associating its key with a handler.
    ///
    /// Returns `false`, and keeps the existing handler, when the key is
    /// already granted.
    pub fn grant(&mut self, key: Key, handler: Handler) -> (granted: bool)
        requires
            obeys_key_model::<Key>(),
        ensures
            granted == !old(self)@.contains_key(key),
            final(self)@ == with_grant(old(self)@, key, handler),
            final(self)@ == grant_step(old(self)@, GrantOp::Grant(key, handler)),
            final(self)@.len() == old(self)@.len() + if granted {
                1int
            } else {
                0int
            },
    {
        if self.handlers.contains_key(&key) {
            return false;
        }
        let mut handlers = HashMap::new();
        std::mem::swap(&mut handlers, &mut self.handlers);
        handlers.insert(key, handler);
        self.handlers = handlers;
        true
    }

    /// Revokes a capability and returns whether it was previously granted.
    pub fn revoke(&mut self, key: &Key) -> (revoked: bool)
        requires
            obeys_key_model::<Key>(),
        ensures
            revoked == old(self)@.contains_key(*key),
            final(self)@ == old(self)@.remove(*key),
            final(self)@ == grant_step(old(self)@, GrantOp::<Key, Handler>::Revoke(*key)),
            final(self)@.len() == old(self)@.len() - if revoked {
                1int
            } else {
                0int
            },
    {
        let mut handlers = HashMap::new();
        std::mem::swap(&mut handlers, &mut self.handlers);
        let removed = handlers.remove(key);
        self.handlers = handlers;
        removed.is_some()
    }

    /// Returns whether a capability is currently granted.
    pub fn is_granted(&self, key: &Key) -> (granted: bool)
        requires
            obeys_key_model::<Key>(),
        ensures
            granted == self@.contains_key(*key),
    {
        self.handlers.contains_key(key)
    }

    /// Returns the number of currently granted capabilities.
    pub fn grant_count(&self) -> (count: usize)
        requires
            obeys_key_model::<Key>(),
        ensures
            count == self@.len(),
    {
        self.handlers.len()
    }

    /// Decides whether a request for `key` may start as work owned by `context`.
    ///
    /// A capability that is not granted is denied and the registry is left as
    /// it was, so no task starts. A granted capability on a cancelled request
    /// is refused with a cancellation error, again without a task. Otherwise
    /// the granted handler is returned together with the identifier reserved
    /// for the new task.
    pub fn dispatch<'a>(&'a self, context: &mut ContextState, key: &Key) -> (result: Result<
        (&'a Handler, u64),
        RuntimeError,
    >)
        requires
            obeys_key_model::<Key>(),
            old(context)@.accepting ==> old(context)@.next_id < u64::MAX,
        ensures
            !self@.contains_key(*key) ==> result is Err && result->Err_0@ == denied_model()
                && final(context)@ == old(context)@,
            self@.contains_key(*key) && !old(context)@.accepting ==> result is Err
                && result->Err_0@ == cancelled_model() && final(context)@ == old(context)@,
            self@.contains_key(*key) && old(context)@.accepting ==> result is Ok
                && *result->Ok_0.0 == self@[*key] && result->Ok_0.1 == old(context)@.next_id
                && !old(context)@.tasks.contains_key(old(context)@.next_id)
                && final(context)@ == ContextState::after_reserve(old(context)@),
    {
        let handler = match self.handlers.get(key) {
            Some(handler) => handler,
            None => return Err(RuntimeError::capability_denied()),
        };
        let task_id = context.reserve_task()?;
        Ok((handler, task_id))
    }
}

/// Granting a capability that was not granted adds exactly one grant, and
/// revoking it afterwards restores the grants as they were.
pub proof fn lemma_grant_then_revoke<Key, Handler>(grants: Map<Key, Handler>, key: Key, handler: Handler)
    requires
        grants.dom().finite(),
        !grants.contains_key(key),
    ensures
        grants.insert(key, handler).len() == grants.len() + 1,
        grants.insert(key, handler).remove(key) == grants,
{
    assert(grants.insert(key, handler).remove(key) =~= grants);
}

/// Once a capability is granted, later grants of the same key keep the first
/// handler: granting twice is the same as granting once.
pub proof fn lemma_first_grant_wins<Key, Handler>(
    grants: Map<Key, Handler>,
    key: Key,
    first: Handler,
    second: Handler,
)
    ensures
        with_grant(with_grant(grants, key, first), key, second) == with_grant(grants, key, first),
        with_grant(grants, key, first).contains_key(key),
        !grants.contains_key(key) ==> with_grant(grants, key, first)[key] == first,
{
}

impl<Key: Eq + Hash, Handler> Default for Router<Key, Handler> {
    /// Creates a router with no granted capabilities.
    fn default() -> (router: Self)
        ensures
            router@ == Map::<Key, Handler>::empty(),
    {
        Self::new()
    }
}

} // verus!
