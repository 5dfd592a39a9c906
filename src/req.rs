//! Requests.

use crate::target::{CorrelationId, Target};
use vstd::prelude::*;
use vstd::std_specs::cmp::PartialEqSpec;

verus! {

/// A request by a target (anonymous, authenticated or a bot) to perform an action.
#[derive(Debug, Clone, Hash)]
pub struct Req<A> {
    /// The target that sent the request.
    pub from: Target,
    /// The action that the target wants to perform.
    pub action: A,
    /// The correlation ID of the request, echoed in every reply to it.
    pub corrid: CorrelationId,
}

impl<A> Req<A> {
    /// Creates a new request.
    pub fn new(from: Target, action: A, corrid: CorrelationId) -> (r: Req<A>)
        ensures
            r.from == from,
            r.action == action,
            r.corrid == corrid,
    {
        Req { from, action, corrid }
    }
}

/// Two requests are equal when all their fields are.
impl<A: PartialEq> PartialEq for Req<A> {
    fn eq(&self, other: &Req<A>) -> (r: bool) {
        self.from == other.from && self.action == other.action && self.corrid == other.corrid
    }
}

impl<A: PartialEq> vstd::std_specs::cmp::PartialEqSpecImpl for Req<A> {
    open spec fn obeys_eq_spec() -> bool {
        <A as PartialEqSpec>::obeys_eq_spec()
    }

    open spec fn eq_spec(&self, other: &Req<A>) -> bool {
        &&& self.from == other.from
        &&& self.action.eq_spec(&other.action)
        &&& self.corrid == other.corrid
    }
}

impl<A: Eq> Eq for Req<A> {
}

} // verus!
