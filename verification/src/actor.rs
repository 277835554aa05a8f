//! The identity on whose behalf an operation is attempted.  Producing an
//! actor (credential verification) is authentication and happens outside
//! this core; here an actor is an opaque identity with a stable key used to
//! look up role grants.

use vstd::prelude::*;

verus! {

/// An actor: an authenticated user, a built-in service identity, or the
/// unauthenticated actor, which holds no grants and therefore fails every
/// check that requires one.
#[derive(Clone, Copy, Debug, PartialEq, Eq, Structural)]
pub enum Actor {
    Unauthenticated,
    User { id: u128 },
    Service { id: u128 },
}

/// The stable key used to query grants, or `None` for the unauthenticated
/// actor.
pub open spec fn actor_id(a: Actor) -> Option<u128> {
    match a {
        Actor::Unauthenticated => None,
        Actor::User { id } => Some(id),
        Actor::Service { id } => Some(id),
    }
}

impl Actor {
    /// Executable view of [`actor_id`].
    pub fn id(&self) -> (r: Option<u128>)
        ensures
            r == actor_id(*self),
    {
        match self {
            Actor::Unauthenticated => None,
            Actor::User { id } => Some(*id),
            Actor::Service { id } => Some(*id),
        }
    }
}

} // verus!
