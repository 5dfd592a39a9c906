//! The target types: who sends a message, and who receives it.

use crate::ids::{
    decimal_text, format_u32, format_uuid, pair_value, random_uuid, random_uuid_is_not_nil,
    uuid_from_u64_pair, uuid_text,
};
use vstd::prelude::*;

verus! {

/// The user ID type: the 128-bit value of a UUID.
pub type UserId = u128;

/// The session ID type.
pub type SessionId = u32;

/// The bot ID type: the 128-bit value of a UUID.
pub type BotId = u128;

/// The correlation ID type: the 128-bit value of a UUID.
pub type CorrelationId = u128;

/// The user ID of an anonymous target (the nil UUID).
pub const ANON_USER_ID: UserId = 0;

/// The user ID of the system itself (the max UUID), disjoint from [`ANON_USER_ID`].
pub const SYSTEM_USER_ID: UserId = 0xffff_ffff_ffff_ffff_ffff_ffff_ffff_ffff;

/// An authenticated target.
#[derive(Debug, Clone, Copy, PartialEq, Eq, Hash, Structural)]
pub enum AuthTarget {
    /// Targets all sessions of a user.
    All(UserId),
    /// Targets only a specific session of a user.
    Specific(UserId, SessionId),
}

impl AuthTarget {
    /// The user that the target belongs to.
    pub open spec fn spec_id(self) -> UserId {
        match self {
            AuthTarget::All(user_id) => user_id,
            AuthTarget::Specific(user_id, _) => user_id,
        }
    }

    /// An authenticated target never names the anonymous user.
    pub open spec fn wf(self) -> bool {
        self.spec_id() != ANON_USER_ID
    }

    /// Returns the user ID of the target.
    pub fn id(&self) -> (r: UserId)
        ensures
            r == self.spec_id(),
    {
        match self {
            AuthTarget::Specific(user_id, _) => *user_id,
            AuthTarget::All(user_id) => *user_id,
        }
    }
}

/// A target: the source or the destination of a particular message.
#[derive(Debug, Clone, Copy, PartialEq, Eq, Hash, Structural)]
pub enum Target {
    /// Targets an anonymous session.
    Anon(SessionId),
    /// Targets an authenticated session, or all sessions of a user.
    Auth(AuthTarget),
    /// Targets a bot.
    Bot(BotId),
}

/// A target as text: `anon/<session>`, `auth/<user>`, `auth/<user>/<session>`
/// or `bot/<bot>`, with sessions in decimal and users and bots as UUIDs.
pub open spec fn target_text(t: Target) -> Seq<char> {
    match t {
        Target::Anon(session_id) => "anon/"@ + decimal_text(session_id as nat),
        Target::Auth(AuthTarget::All(user_id)) => "auth/"@ + uuid_text(user_id),
        Target::Auth(AuthTarget::Specific(user_id, session_id)) => "auth/"@ + uuid_text(user_id)
            + "/"@ + decimal_text(session_id as nat),
        Target::Bot(bot_id) => "bot/"@ + uuid_text(bot_id),
    }
}

/// The target that a user ID and a session ID denote: an anonymous session for
/// the anonymous user, otherwise that session of that user.
pub open spec fn deduced(user_id: UserId, session_id: SessionId) -> Target {
    if user_id == ANON_USER_ID {
        Target::Anon(session_id)
    } else {
        Target::Auth(AuthTarget::Specific(user_id, session_id))
    }
}

impl Target {
    /// An authenticated target never names the anonymous user.
    pub open spec fn wf(self) -> bool {
        match self {
            Target::Auth(auth) => auth.wf(),
            _ => true,
        }
    }

    /// Both targets denote the same principal: the same anonymous session, the
    /// same user whatever the session, or the same bot.
    pub open spec fn spec_weak_eq(self, other: Target) -> bool {
        match (self, other) {
            (Target::Anon(a), Target::Anon(b)) => a == b,
            (Target::Auth(a), Target::Auth(b)) => a.spec_id() == b.spec_id(),
            (Target::Bot(a), Target::Bot(b)) => a == b,
            _ => false,
        }
    }

    /// The target widened to every session of its user; other targets are kept.
    pub open spec fn spec_for_all(self) -> Target {
        match self {
            Target::Auth(auth) => Target::Auth(AuthTarget::All(auth.spec_id())),
            _ => self,
        }
    }

    /// The user of an authenticated target.
    pub open spec fn spec_user_id(self) -> Option<UserId> {
        match self {
            Target::Auth(auth) => Some(auth.spec_id()),
            _ => None,
        }
    }

    /// The anonymous session for the anonymous user, otherwise that session of
    /// that user. Prefer [`Target::new_deduced`], which says so in its name.
    pub fn new(user_id: UserId, session_id: SessionId) -> (r: Target)
        ensures
            r == deduced(user_id, session_id),
            r.wf(),
    {
        if user_id == ANON_USER_ID {
            Target::Anon(session_id)
        } else {
            Target::Auth(AuthTarget::Specific(user_id, session_id))
        }
    }

    /// A specific authenticated target of a freshly generated random user, on
    /// session 0. Useful in testing.
    pub fn new_random() -> (r: Target)
        ensures
            r matches Target::Auth(AuthTarget::Specific(user_id, 0)) && user_id != ANON_USER_ID,
            r.wf(),
    {
        Self::new_random_with_session(0)
    }

    /// A specific authenticated target of a freshly generated random user, on
    /// the given session. Useful in testing.
    pub fn new_random_with_session(session_id: SessionId) -> (r: Target)
        ensures
            r matches Target::Auth(AuthTarget::Specific(user_id, s)) && user_id != ANON_USER_ID
                && s == session_id,
            r.wf(),
    {
        let user_id = random_uuid();
        proof {
            random_uuid_is_not_nil(user_id);
        }
        Target::Auth(AuthTarget::Specific(user_id, session_id))
    }

    /// An anonymous or an authenticated specific target, depending on the user ID.
    pub fn new_deduced(user_id: UserId, session_id: SessionId) -> (r: Target)
        ensures
            r == deduced(user_id, session_id),
            r.wf(),
    {
        if user_id == ANON_USER_ID {
            Self::new_anon(session_id)
        } else {
            Self::new_auth_specific(user_id, session_id)
        }
    }

    /// A specific authenticated target. The user must not be the anonymous one.
    pub fn new_auth_specific(user_id: UserId, session_id: SessionId) -> (r: Target)
        requires
            user_id != ANON_USER_ID,
        ensures
            r == Target::Auth(AuthTarget::Specific(user_id, session_id)),
            r.wf(),
    {
        Target::Auth(AuthTarget::Specific(user_id, session_id))
    }

    /// A target for all sessions of a user. The user must not be the anonymous one.
    pub fn new_auth(user_id: UserId) -> (r: Target)
        requires
            user_id != ANON_USER_ID,
        ensures
            r == Target::Auth(AuthTarget::All(user_id)),
            r.wf(),
    {
        Target::Auth(AuthTarget::All(user_id))
    }

    /// An anonymous target.
    pub fn new_anon(session_id: SessionId) -> (r: Target)
        ensures
            r == Target::Anon(session_id),
    {
        Target::Anon(session_id)
    }

    /// A bot target.
    pub fn new_bot(bot_id: BotId) -> (r: Target)
        ensures
            r == Target::Bot(bot_id),
    {
        Target::Bot(bot_id)
    }

    /// Whether the two targets denote the same principal, so that two sessions
    /// of one authenticated user are weakly equal.
    pub fn weak_eq(&self, other: &Target) -> (r: bool)
        ensures
            r == self.spec_weak_eq(*other),
    {
        match (self, other) {
            (Target::Anon(a), Target::Anon(b)) => *a == *b,
            (Target::Auth(a), Target::Auth(b)) => a.id() == b.id(),
            (Target::Bot(a), Target::Bot(b)) => *a == *b,
            _ => false,
        }
    }

    /// Whether the target is an anonymous target.
    pub fn is_anon(&self) -> (r: bool)
        ensures
            r == (*self is Anon),
    {
        match self {
            Target::Anon(_) => true,
            _ => false,
        }
    }

    /// Whether the target is an authenticated target.
    pub fn is_auth(&self) -> (r: bool)
        ensures
            r == (*self is Auth),
    {
        match self {
            Target::Auth(_) => true,
            _ => false,
        }
    }

    /// Whether the target is a bot target.
    pub fn is_bot(&self) -> (r: bool)
        ensures
            r == (*self is Bot),
    {
        match self {
            Target::Bot(_) => true,
            _ => false,
        }
    }

    /// Widens an authenticated target to all sessions of its user. Anonymous and
    /// bot targets have no broader form and are returned unchanged.
    pub fn for_all(&self) -> (r: Target)
        ensures
            r == self.spec_for_all(),
            self.wf() ==> r.wf(),
    {
        match self {
            Target::Anon(..) => *self,
            Target::Auth(auth_target) => Target::Auth(AuthTarget::All(auth_target.id())),
            Target::Bot(..) => *self,
        }
    }

    /// The target as text, as it is shown in logs.
    pub fn to_string(&self) -> (r: String)
        ensures
            r@ == target_text(*self),
    {
        match self {
            Target::Anon(session_id) => {
                let mut out = String::from_str("anon/");
                out.append(format_u32(*session_id).as_str());
                out
            },
            Target::Auth(AuthTarget::All(user_id)) => {
                let mut out = String::from_str("auth/");
                out.append(format_uuid(*user_id).as_str());
                out
            },
            Target::Auth(AuthTarget::Specific(user_id, session_id)) => {
                let mut out = String::from_str("auth/");
                out.append(format_uuid(*user_id).as_str());
                out.append("/");
                out.append(format_u32(*session_id).as_str());
                out
            },
            Target::Bot(bot_id) => {
                let mut out = String::from_str("bot/");
                out.append(format_uuid(*bot_id).as_str());
                out
            },
        }
    }

    /// The target's user ID, for authenticated targets.
    pub fn user_id(&self) -> (r: Option<UserId>)
        ensures
            r == self.spec_user_id(),
    {
        match self {
            Target::Auth(auth_target) => Some(auth_target.id()),
            _ => None,
        }
    }
}

impl From<AuthTarget> for Target {
    fn from(auth: AuthTarget) -> (r: Target) {
        Target::Auth(auth)
    }
}

impl vstd::std_specs::convert::FromSpecImpl<AuthTarget> for Target {
    open spec fn obeys_from_spec() -> bool {
        true
    }

    open spec fn from_spec(auth: AuthTarget) -> Target {
        Target::Auth(auth)
    }
}

/// A user ID and a session ID become the target that they denote: an anonymous
/// session for the anonymous user, never an authenticated one.
impl From<(UserId, SessionId)> for Target {
    fn from(ids: (UserId, SessionId)) -> (r: Target) {
        Target::new_deduced(ids.0, ids.1)
    }
}

impl vstd::std_specs::convert::FromSpecImpl<(UserId, SessionId)> for Target {
    open spec fn obeys_from_spec() -> bool {
        true
    }

    open spec fn from_spec(ids: (UserId, SessionId)) -> Target {
        deduced(ids.0, ids.1)
    }
}

/// The targets that a message can be sent to.
#[derive(Debug, Clone)]
pub enum Targets {
    /// Targets all sessions.
    All,
    /// Targets only the listed targets, in that order.
    Few(Vec<Target>),
}

/// The mathematical value of a [`Targets`].
pub enum TargetsView {
    /// Every session.
    All,
    /// The listed targets.
    Few(Seq<Target>),
}

/// Two sets of targets are equal when both are `All`, or both list the same
/// targets in the same order.
impl PartialEq for Targets {
    fn eq(&self, other: &Targets) -> (r: bool) {
        match self {
            Targets::All => other.is_all(),
            Targets::Few(a) => match other {
                Targets::All => false,
                Targets::Few(b) => {
                    if a.len() != b.len() {
                        return false;
                    }
                    let mut i: usize = 0;
                    while i < a.len()
                        invariant
                            self@ == TargetsView::Few(a@),
                            other@ == TargetsView::Few(b@),
                            a.len() == b.len(),
                            i <= a.len(),
                            forall|k: int| 0 <= k < i ==> a@[k] == b@[k],
                        decreases a.len() - i,
                    {
                        if a[i] != b[i] {
                            assert(a@[i as int] != b@[i as int]);
                            return false;
                        }
                        i = i + 1;
                    }
                    assert(a@ =~= b@);
                    true
                },
            },
        }
    }
}

impl vstd::std_specs::cmp::PartialEqSpecImpl for Targets {
    open spec fn obeys_eq_spec() -> bool {
        true
    }

    open spec fn eq_spec(&self, other: &Targets) -> bool {
        self@ == other@
    }
}

impl Eq for Targets {
}

impl Targets {
    /// Whether the message goes to every session.
    pub fn is_all(&self) -> (r: bool)
        ensures
            r == (self@ is All),
    {
        match self {
            Targets::All => true,
            Targets::Few(_) => false,
        }
    }
}

impl View for Targets {
    type V = TargetsView;

    open spec fn view(&self) -> TargetsView {
        match self {
            Targets::All => TargetsView::All,
            Targets::Few(list) => TargetsView::Few(list@),
        }
    }
}

// A `Vec` has no constructor in spec code, so a conversion into `Targets` is
// stated over the view, in the `ensures` of `from`.
impl vstd::std_specs::convert::FromSpecImpl<Target> for Targets {
    open spec fn obeys_from_spec() -> bool {
        false
    }

    open spec fn from_spec(v: Target) -> Targets {
        arbitrary()
    }
}

impl From<Target> for Targets {
    fn from(target: Target) -> (r: Targets)
        ensures
            r@ == TargetsView::Few(seq![target]),
    {
        let list = vec![target];
        assert(list@ =~= seq![target]);
        Targets::Few(list)
    }
}

impl vstd::std_specs::convert::FromSpecImpl<Vec<Target>> for Targets {
    open spec fn obeys_from_spec() -> bool {
        false
    }

    open spec fn from_spec(v: Vec<Target>) -> Targets {
        arbitrary()
    }
}

impl From<Vec<Target>> for Targets {
    fn from(list: Vec<Target>) -> (r: Targets)
        ensures
            r@ == TargetsView::Few(list@),
    {
        Targets::Few(list)
    }
}

impl vstd::std_specs::convert::FromSpecImpl<AuthTarget> for Targets {
    open spec fn obeys_from_spec() -> bool {
        false
    }

    open spec fn from_spec(v: AuthTarget) -> Targets {
        arbitrary()
    }
}

impl From<AuthTarget> for Targets {
    fn from(auth: AuthTarget) -> (r: Targets)
        ensures
            r@ == TargetsView::Few(seq![Target::Auth(auth)]),
    {
        let list = vec![Target::Auth(auth)];
        assert(list@ =~= seq![Target::Auth(auth)]);
        Targets::Few(list)
    }
}

impl vstd::std_specs::convert::FromSpecImpl<Vec<AuthTarget>> for Targets {
    open spec fn obeys_from_spec() -> bool {
        false
    }

    open spec fn from_spec(v: Vec<AuthTarget>) -> Targets {
        arbitrary()
    }
}

impl From<Vec<AuthTarget>> for Targets {
    fn from(list: Vec<AuthTarget>) -> (r: Targets)
        ensures
            r@ == TargetsView::Few(list@.map_values(|auth: AuthTarget| Target::Auth(auth))),
    {
        let mut targets: Vec<Target> = Vec::new();
        let mut i: usize = 0;
        while i < list.len()
            invariant
                i <= list.len(),
                targets@ == list@.subrange(0, i as int).map_values(
                    |auth: AuthTarget| Target::Auth(auth),
                ),
            decreases list.len() - i,
        {
            targets.push(Target::Auth(list[i]));
            i = i + 1;
            assert(list@.subrange(0, i as int) == list@.subrange(0, i - 1).push(list@[i - 1]));
        }
        assert(list@.subrange(0, list@.len() as int) == list@);
        Targets::Few(targets)
    }
}

/// An endless (up to `u32::MAX`) pool of distinct targets. Useful in testing.
#[derive(Debug, Clone, Copy)]
pub struct UserPool {
    curr: u32,
}

/// The target of the given kind that a pool hands out for counter value `n`:
/// the anonymous session `n`, or the user or bot whose UUID has `n` as both
/// halves.
pub open spec fn pool_target(n: u32, t: Target) -> bool {
    ||| t == Target::Anon(n)
    ||| t matches Target::Auth(AuthTarget::Specific(id, 0)) && id as int == pair_value(
        n as u64,
        n as u64,
    )
    ||| t matches Target::Bot(id) && id as int == pair_value(n as u64, n as u64)
}

impl UserPool {
    /// The counter value that the next target is made from.
    pub closed spec fn counter(self) -> u32 {
        self.curr
    }

    /// Counter value 0 stays reserved for the first anonymous session.
    pub open spec fn wf(self) -> bool {
        self.counter() >= 1
    }

    /// Hands out the next anonymous target.
    pub fn next_anon(&mut self) -> (r: Target)
        requires
            old(self).counter() < u32::MAX,
        ensures
            final(self).counter() == old(self).counter() + 1,
            r == Target::Anon(old(self).counter()),
            pool_target(old(self).counter(), r),
    {
        let n = self.curr;
        self.curr = self.curr + 1;
        Target::new_anon(n)
    }

    /// Hands out the next bot target.
    pub fn next_bot(&mut self) -> (r: Target)
        requires
            old(self).counter() < u32::MAX,
        ensures
            final(self).counter() == old(self).counter() + 1,
            r matches Target::Bot(id) && id as int == pair_value(
                old(self).counter() as u64,
                old(self).counter() as u64,
            ),
            pool_target(old(self).counter(), r),
    {
        let n = self.curr;
        self.curr = self.curr + 1;
        Target::new_bot(uuid_from_u64_pair(n as u64, n as u64))
    }

    /// Hands out the next authenticated target, on session 0 of a new user.
    pub fn next_auth(&mut self) -> (r: Target)
        requires
            old(self).wf(),
            old(self).counter() < u32::MAX,
        ensures
            final(self).wf(),
            final(self).counter() == old(self).counter() + 1,
            r matches Target::Auth(AuthTarget::Specific(id, 0)) && id as int == pair_value(
                old(self).counter() as u64,
                old(self).counter() as u64,
            ),
            pool_target(old(self).counter(), r),
            r.wf(),
    {
        let n = self.curr;
        self.curr = self.curr + 1;
        let user_id = uuid_from_u64_pair(n as u64, n as u64);
        Target::new_auth_specific(user_id, 0)
    }
}

impl Default for UserPool {
    fn default() -> (r: UserPool)
        ensures
            r.counter() == 1,
            r.wf(),
    {
        UserPool { curr: 1 }
    }
}

/// Weak equality is reflexive.
pub proof fn weak_eq_reflexive(t: Target)
    ensures
        t.spec_weak_eq(t),
{
}

/// Weak equality is symmetric.
pub proof fn weak_eq_symmetric(a: Target, b: Target)
    ensures
        a.spec_weak_eq(b) == b.spec_weak_eq(a),
{
}

/// Two sessions of one authenticated user are weakly equal.
pub proof fn weak_eq_ignores_session(user_id: UserId, session_a: SessionId, session_b: SessionId)
    requires
        user_id != ANON_USER_ID,
    ensures
        deduced(user_id, session_a).spec_weak_eq(deduced(user_id, session_b)),
{
}

/// A target is weakly equal to its widened form.
pub proof fn weak_eq_for_all(t: Target)
    ensures
        t.spec_weak_eq(t.spec_for_all()),
{
}

/// Anonymous targets are weakly equal only when their sessions are the same.
pub proof fn weak_eq_anon_by_session(session_a: SessionId, session_b: SessionId)
    ensures
        Target::Anon(session_a).spec_weak_eq(Target::Anon(session_b)) == (session_a
            == session_b),
{
}

/// An empty list of targets is a value of its own: it differs from `All` and
/// from every non-empty list.
pub proof fn empty_few_is_distinct(t: Targets, other: Seq<Target>)
    requires
        t@ == TargetsView::Few(Seq::<Target>::empty()),
        other.len() > 0,
    ensures
        t@ != TargetsView::All,
        t@ != TargetsView::Few(other),
{
    assert(other.len() != Seq::<Target>::empty().len());
}

/// Targets that a pool hands out for different counter values are never weakly
/// equal, whatever their kinds.
pub proof fn pool_targets_differ(n: u32, t: Target, m: u32, u: Target)
    requires
        pool_target(n, t),
        pool_target(m, u),
        n != m,
    ensures
        !t.spec_weak_eq(u),
{
}

/// The targets that a pool hands out over consecutive calls, from counter value
/// `first` on and by any mix of `next_anon`, `next_auth` and `next_bot`, are
/// pairwise not weakly equal.
pub proof fn pool_targets_pairwise_distinct(first: u32, targets: Seq<Target>)
    requires
        first + targets.len() <= u32::MAX + 1,
        forall|i: int| 0 <= i < targets.len() ==> pool_target((first + i) as u32, #[trigger] targets[i]),
    ensures
        forall|i: int, j: int|
            0 <= i < targets.len() && 0 <= j < targets.len() && i != j
                ==> !(#[trigger] targets[i]).spec_weak_eq(#[trigger] targets[j]),
{
    assert forall|i: int, j: int|
        0 <= i < targets.len() && 0 <= j < targets.len() && i != j implies !(
        #[trigger] targets[i]).spec_weak_eq(#[trigger] targets[j]) by {
        pool_targets_differ((first + i) as u32, targets[i], (first + j) as u32, targets[j]);
    }
}

} // verus!
