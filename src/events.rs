//! Common events used by the server and the client.

use crate::target::{deduced, SessionId, Target, UserId, ANON_USER_ID};
use core::marker::PhantomData;
use vstd::prelude::*;

verus! {

/// Event indicating that a user was authenticated.
#[derive(Debug, Clone, Copy, PartialEq, Eq, Hash, Structural)]
pub struct Authenticated;

/// Event indicating that a user was unauthenticated.
#[derive(Debug, Clone, Copy, PartialEq, Eq, Hash, Structural)]
pub struct Unauthenticated;

/// Marker of a connection event that has not been put into any category yet.
#[derive(Debug, Clone, Copy, PartialEq, Eq, Hash, Structural)]
pub struct Undetermined;

/// Event indicating that a user connected to the server.
///
/// The marker `M` lets different handlers receive the event apart.
#[derive(Debug, Hash)]
pub struct Connected<M> {
    /// The user id of the user.
    pub user_id: UserId,
    /// The session id of the user.
    pub session_id: SessionId,
    /// The marker type, which holds no data.
    pub marker: PhantomData<M>,
}

impl<M> Connected<M> {
    /// Creates a new [`Connected`] event.
    pub fn new(user_id: UserId, session_id: SessionId) -> (r: Connected<M>)
        ensures
            r.user_id == user_id,
            r.session_id == session_id,
    {
        Connected { user_id, session_id, marker: PhantomData }
    }
}

/// Two events are equal when they name the same user and session.
impl<M> PartialEq for Connected<M> {
    fn eq(&self, other: &Connected<M>) -> (r: bool) {
        self.user_id == other.user_id && self.session_id == other.session_id
    }
}

impl<M> vstd::std_specs::cmp::PartialEqSpecImpl for Connected<M> {
    open spec fn obeys_eq_spec() -> bool {
        true
    }

    open spec fn eq_spec(&self, other: &Connected<M>) -> bool {
        self.user_id == other.user_id && self.session_id == other.session_id
    }
}

impl<M> Eq for Connected<M> {
}

impl<M> Clone for Connected<M> {
    fn clone(&self) -> (r: Connected<M>)
        ensures
            r.user_id == self.user_id,
            r.session_id == self.session_id,
    {
        Connected::new(self.user_id, self.session_id)
    }
}

impl<M> Copy for Connected<M> {
}

/// The event's user and session become the target that they denote.
impl<M> From<Connected<M>> for Target {
    fn from(event: Connected<M>) -> (r: Target) {
        if event.user_id == ANON_USER_ID {
            Target::Anon(event.session_id)
        } else {
            Target::Auth(crate::target::AuthTarget::Specific(event.user_id, event.session_id))
        }
    }
}

impl<M> vstd::std_specs::convert::FromSpecImpl<Connected<M>> for Target {
    open spec fn obeys_from_spec() -> bool {
        true
    }

    open spec fn from_spec(event: Connected<M>) -> Target {
        deduced(event.user_id, event.session_id)
    }
}

impl<M> From<Connected<M>> for (UserId, SessionId) {
    fn from(event: Connected<M>) -> (r: (UserId, SessionId)) {
        (event.user_id, event.session_id)
    }
}

impl<M> vstd::std_specs::convert::FromSpecImpl<Connected<M>> for (UserId, SessionId) {
    open spec fn obeys_from_spec() -> bool {
        true
    }

    open spec fn from_spec(event: Connected<M>) -> (UserId, SessionId) {
        (event.user_id, event.session_id)
    }
}

/// Event indicating that a user disconnected from the server.
///
/// The marker `M` lets different handlers receive the event apart.
#[derive(Debug, Hash)]
pub struct Disconnected<M> {
    /// The user id of the user.
    pub user_id: UserId,
    /// The session id of the user.
    pub session_id: SessionId,
    /// The marker type, which holds no data.
    pub marker: PhantomData<M>,
}

impl<M> Disconnected<M> {
    /// Creates a new [`Disconnected`] event.
    pub fn new(user_id: UserId, session_id: SessionId) -> (r: Disconnected<M>)
        ensures
            r.user_id == user_id,
            r.session_id == session_id,
    {
        Disconnected { user_id, session_id, marker: PhantomData }
    }
}

/// Two events are equal when they name the same user and session.
impl<M> PartialEq for Disconnected<M> {
    fn eq(&self, other: &Disconnected<M>) -> (r: bool) {
        self.user_id == other.user_id && self.session_id == other.session_id
    }
}

impl<M> vstd::std_specs::cmp::PartialEqSpecImpl for Disconnected<M> {
    open spec fn obeys_eq_spec() -> bool {
        true
    }

    open spec fn eq_spec(&self, other: &Disconnected<M>) -> bool {
        self.user_id == other.user_id && self.session_id == other.session_id
    }
}

impl<M> Eq for Disconnected<M> {
}

impl<M> Clone for Disconnected<M> {
    fn clone(&self) -> (r: Disconnected<M>)
        ensures
            r.user_id == self.user_id,
            r.session_id == self.session_id,
    {
        Disconnected::new(self.user_id, self.session_id)
    }
}

impl<M> Copy for Disconnected<M> {
}

/// The event's user and session become the target that they denote.
impl<M> From<Disconnected<M>> for Target {
    fn from(event: Disconnected<M>) -> (r: Target) {
        if event.user_id == ANON_USER_ID {
            Target::Anon(event.session_id)
        } else {
            Target::Auth(crate::target::AuthTarget::Specific(event.user_id, event.session_id))
        }
    }
}

impl<M> vstd::std_specs::convert::FromSpecImpl<Disconnected<M>> for Target {
    open spec fn obeys_from_spec() -> bool {
        true
    }

    open spec fn from_spec(event: Disconnected<M>) -> Target {
        deduced(event.user_id, event.session_id)
    }
}

impl<M> From<Disconnected<M>> for (UserId, SessionId) {
    fn from(event: Disconnected<M>) -> (r: (UserId, SessionId)) {
        (event.user_id, event.session_id)
    }
}

impl<M> vstd::std_specs::convert::FromSpecImpl<Disconnected<M>> for (UserId, SessionId) {
    open spec fn obeys_from_spec() -> bool {
        true
    }

    open spec fn from_spec(event: Disconnected<M>) -> (UserId, SessionId) {
        (event.user_id, event.session_id)
    }
}

/// Event indicating that a user connected to the server with no other session active.
///
/// The marker `M` lets different handlers receive the event apart.
#[derive(Debug, Hash)]
pub struct FirstConnected<M> {
    /// The user id of the user.
    pub user_id: UserId,
    /// The session id of the user.
    pub session_id: SessionId,
    /// The marker type, which holds no data.
    pub marker: PhantomData<M>,
}

impl<M> FirstConnected<M> {
    /// Creates a new [`FirstConnected`] event.
    pub fn new(user_id: UserId, session_id: SessionId) -> (r: FirstConnected<M>)
        ensures
            r.user_id == user_id,
            r.session_id == session_id,
    {
        FirstConnected { user_id, session_id, marker: PhantomData }
    }
}

/// Two events are equal when they name the same user and session.
impl<M> PartialEq for FirstConnected<M> {
    fn eq(&self, other: &FirstConnected<M>) -> (r: bool) {
        self.user_id == other.user_id && self.session_id == other.session_id
    }
}

impl<M> vstd::std_specs::cmp::PartialEqSpecImpl for FirstConnected<M> {
    open spec fn obeys_eq_spec() -> bool {
        true
    }

    open spec fn eq_spec(&self, other: &FirstConnected<M>) -> bool {
        self.user_id == other.user_id && self.session_id == other.session_id
    }
}

impl<M> Eq for FirstConnected<M> {
}

impl<M> Clone for FirstConnected<M> {
    fn clone(&self) -> (r: FirstConnected<M>)
        ensures
            r.user_id == self.user_id,
            r.session_id == self.session_id,
    {
        FirstConnected::new(self.user_id, self.session_id)
    }
}

impl<M> Copy for FirstConnected<M> {
}

/// The event's user and session become the target that they denote.
impl<M> From<FirstConnected<M>> for Target {
    fn from(event: FirstConnected<M>) -> (r: Target) {
        if event.user_id == ANON_USER_ID {
            Target::Anon(event.session_id)
        } else {
            Target::Auth(crate::target::AuthTarget::Specific(event.user_id, event.session_id))
        }
    }
}

impl<M> vstd::std_specs::convert::FromSpecImpl<FirstConnected<M>> for Target {
    open spec fn obeys_from_spec() -> bool {
        true
    }

    open spec fn from_spec(event: FirstConnected<M>) -> Target {
        deduced(event.user_id, event.session_id)
    }
}

impl<M> From<FirstConnected<M>> for (UserId, SessionId) {
    fn from(event: FirstConnected<M>) -> (r: (UserId, SessionId)) {
        (event.user_id, event.session_id)
    }
}

impl<M> vstd::std_specs::convert::FromSpecImpl<FirstConnected<M>> for (UserId, SessionId) {
    open spec fn obeys_from_spec() -> bool {
        true
    }

    open spec fn from_spec(event: FirstConnected<M>) -> (UserId, SessionId) {
        (event.user_id, event.session_id)
    }
}

} // verus!
