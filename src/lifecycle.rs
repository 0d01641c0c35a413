use crate::registry::{Registry, RegistryError};
use std::collections::{HashMap, HashSet};
use std::sync::Arc;
use vstd::prelude::*;

verus! {

broadcast use vstd::std_specs::hash::group_hash_axioms;

/// Seconds after creation at which a connection that is still `New` and
/// was never answered is removed.
pub const ABANDON_TIMEOUT_SECS: u64 = 10;

/// Seconds between two reports of the number of live connections.
pub const TELEMETRY_INTERVAL_SECS: u64 = 15;

/// State of a peer connection as the peer connection service reports it.
#[derive(Debug, Clone, Copy, PartialEq, Eq, Structural)]
pub enum PeerState {
    Unspecified,
    New,
    Connecting,
    Connected,
    Disconnected,
    Failed,
    Closed,
}

/// States after which a connection is removed.
pub open spec fn is_terminal(s: PeerState) -> bool {
    s is Disconnected || s is Failed || s is Closed
}

/// Whether `s` is one of the states after which a connection is removed.
pub fn terminal(s: PeerState) -> (r: bool)
    ensures
        r == is_terminal(s),
{
    match s {
        PeerState::Disconnected | PeerState::Failed | PeerState::Closed => true,
        _ => false,
    }
}

/// The live connections. Each registration gets a token that no earlier
/// registration got, so that a deferred action scheduled for one
/// registration never touches a later connection that reuses its handle.
/// Each connection also records whether an answer was applied to it.
pub struct Sessions<C> {
    peers: Registry<C>,
    answered: HashSet<u32>,
    tokens: HashMap<u32, u64>,
    next_token: u64,
}

impl<C> View for Sessions<C> {
    type V = Map<u32, Arc<C>>;

    open spec fn view(&self) -> Map<u32, Arc<C>> {
        self.live()
    }
}

impl<C> Sessions<C> {
    /// The live connections, by handle.
    pub closed spec fn live(&self) -> Map<u32, Arc<C>> {
        self.peers@
    }

    /// Handles of the live connections to which an answer was applied.
    pub closed spec fn answered_handles(&self) -> Set<u32> {
        self.answered@
    }

    /// The registration token of each live connection, by handle.
    pub closed spec fn tokens(&self) -> Map<u32, u64> {
        self.tokens@
    }

    /// The token that the next registration gets; every token issued so far
    /// is smaller.
    pub closed spec fn next_token(&self) -> u64 {
        self.next_token
    }

    /// `id` is live and was registered under `token`.
    pub open spec fn holds(&self, id: u32, token: u64) -> bool {
        self@.contains_key(id) && self.tokens()[id] == token
    }

    /// `after` and `removed` are what `on_state_change(id, token, state)` makes of `before`.
    pub open spec fn change_step(
        before: Self,
        id: u32,
        token: u64,
        state: PeerState,
        after: Self,
        removed: bool,
    ) -> bool {
        &&& removed == (before.holds(id, token) && is_terminal(state))
        &&& after.next_token() == before.next_token()
        &&& if removed {
            &&& after@ == before@.remove(id)
            &&& after.tokens() == before.tokens().remove(id)
            &&& after.answered_handles() == before.answered_handles().remove(id)
        } else {
            &&& after@ == before@
            &&& after.tokens() == before.tokens()
            &&& after.answered_handles() == before.answered_handles()
        }
    }

    /// `after` and `removed` are what `reap_abandoned(id, token, state)` makes of `before`.
    pub open spec fn reap_step(
        before: Self,
        id: u32,
        token: u64,
        state: PeerState,
        after: Self,
        removed: bool,
    ) -> bool {
        &&& removed == (before.holds(id, token) && state == PeerState::New
            && !before.answered_handles().contains(id))
        &&& after.next_token() == before.next_token()
        &&& after.answered_handles() == before.answered_handles()
        &&& if removed {
            &&& after@ == before@.remove(id)
            &&& after.tokens() == before.tokens().remove(id)
        } else {
            &&& after@ == before@
            &&& after.tokens() == before.tokens()
        }
    }

    /// `after` and `applied` are what `accept_answer(id)` makes of `before`.
    pub open spec fn answer_step(before: Self, id: u32, after: Self, applied: bool) -> bool {
        &&& applied == before@.contains_key(id)
        &&& after@ == before@
        &&& after.tokens() == before.tokens()
        &&& after.next_token() == before.next_token()
        &&& after.answered_handles() == if applied {
            before.answered_handles().insert(id)
        } else {
            before.answered_handles()
        }
    }

    /// The registry is consistent, exactly the live connections have a
    /// token, every token was issued, and only live connections are
    /// recorded as answered.
    pub closed spec fn wf(&self) -> bool {
        &&& self.peers.wf()
        &&& forall|h: u32| #[trigger] self.answered@.contains(h) ==> self.peers@.contains_key(h)
        &&& forall|h: u32| #[trigger] self.tokens@.contains_key(h) <==> self.peers@.contains_key(h)
        &&& forall|h: u32| #[trigger] self.tokens@.contains_key(h) ==> self.tokens@[h] < self.next_token
    }

    /// No connections.
    pub fn new() -> (r: Self)
        ensures
            r.wf(),
            r@ == Map::<u32, Arc<C>>::empty(),
            r.answered_handles() == Set::<u32>::empty(),
            r.tokens() == Map::<u32, u64>::empty(),
            r.next_token() == 0,
    {
        Sessions { peers: Registry::new(), answered: HashSet::new(), tokens: HashMap::new(), next_token: 0 }
    }

    /// Number of live connections.
    pub fn len(&self) -> (r: usize)
        ensures
            r == self@.len(),
    {
        self.peers.len()
    }

    /// The connection with handle `id`, if it is live.
    pub fn get(&self, id: u32) -> (r: Option<&Arc<C>>)
        ensures
            match r {
                Some(a) => self@.contains_key(id) && *a == self@[id],
                None => !self@.contains_key(id),
            },
    {
        self.peers.get(id)
    }

    /// The registration token of connection `id`, if it is live.
    pub fn token(&self, id: u32) -> (r: Option<u64>)
        requires
            self.wf(),
        ensures
            match r {
                Some(t) => self.holds(id, t),
                None => !self@.contains_key(id),
            },
    {
        match self.tokens.get(&id) {
            Some(t) => Some(*t),
            None => None,
        }
    }

    /// Registers a new connection built by `cb` under a fresh handle and a
    /// fresh token, which `cb` receives, and returns both with the stored
    /// connection. The handle exists before the connection can report any
    /// state change.
    ///
    /// Fails, changing nothing, when every handle is live
    /// (`HandleSpaceExhausted`) or every token was issued
    /// (`RegistrationsExhausted`).
    pub fn register<F: FnOnce(u32, u64) -> C>(&mut self, cb: F) -> (r: Result<(u32, u64, &Arc<C>), RegistryError>)
        requires
            old(self).wf(),
            forall|h: u32, t: u64| cb.requires((h, t)),
        ensures
            final(self).wf(),
            r is Err <==> (crate::registry::all_live(old(self)@) || old(self).next_token() == u64::MAX),
            match r {
                Ok((h, t, a)) => {
                    &&& *a == final(self)@[h]
                    &&& crate::registry::alloc_step(old(self)@, h, final(self)@)
                    &&& cb.ensures((h, t), *final(self)@[h])
                    &&& t == old(self).next_token()
                    &&& final(self).next_token() == t + 1
                    &&& final(self).tokens() == old(self).tokens().insert(h, t)
                    &&& final(self).answered_handles() == old(self).answered_handles()
                    &&& !final(self).answered_handles().contains(h)
                },
                Err(e) => {
                    &&& e == if old(self).next_token() == u64::MAX {
                        RegistryError::RegistrationsExhausted
                    } else {
                        RegistryError::HandleSpaceExhausted
                    }
                    &&& final(self)@ == old(self)@
                    &&& final(self).tokens() == old(self).tokens()
                    &&& final(self).next_token() == old(self).next_token()
                    &&& final(self).answered_handles() == old(self).answered_handles()
                },
            },
    {
        if self.next_token == u64::MAX {
            return Err(RegistryError::RegistrationsExhausted);
        }
        let token = self.next_token;
        let r = self.peers.add(|id: u32| -> (c: C)
            requires
                cb.requires((id, token)),
            ensures
                cb.ensures((id, token), c),
            { cb(id, token) });
        match r {
            Ok((id, _)) => {
                self.tokens.insert(id, token);
                self.next_token = token + 1;
                proof {
                    assert forall|h: u32| #[trigger] self.answered@.contains(h) implies self.peers@.contains_key(h) by {
                        assert(old(self).peers@.contains_key(h));
                    }
                    assert forall|h: u32| #[trigger] self.tokens@.contains_key(h) <==> self.peers@.contains_key(h) by {
                        if h != id {
                            assert(self.tokens@.contains_key(h) == old(self).tokens@.contains_key(h));
                            assert(self.peers@.contains_key(h) == old(self).peers@.contains_key(h));
                        }
                    }
                    assert(!self.answered@.contains(id));
                }
                match self.peers.get(id) {
                    Some(a) => Ok((id, token, a)),
                    None => {
                        assert(false);
                        Err(RegistryError::HandleSpaceExhausted)
                    },
                }
            },
            Err(e) => Err(e),
        }
    }

    /// Removes connection `id` with its token and its answer record.
    fn drop_session(&mut self, id: u32)
        requires
            old(self).wf(),
        ensures
            final(self).wf(),
            final(self)@ == old(self)@.remove(id),
            final(self).tokens() == old(self).tokens().remove(id),
            final(self).next_token() == old(self).next_token(),
            final(self).answered_handles() == old(self).answered_handles().remove(id),
    {
        self.peers.del(id);
        self.answered.remove(&id);
        self.tokens.remove(&id);
    }

    /// Whether `id` is live under `token`.
    fn holds_exec(&self, id: u32, token: u64) -> (r: bool)
        requires
            self.wf(),
        ensures
            r == self.holds(id, token),
    {
        match self.tokens.get(&id) {
            Some(t) => *t == token,
            None => false,
        }
    }

    /// Handles a state change reported for the registration `token` of
    /// connection `id`, whose current state is `state`: when that
    /// registration is live and the state is terminal, it is removed.
    /// Returns whether it was removed.
    pub fn on_state_change(&mut self, id: u32, token: u64, state: PeerState) -> (removed: bool)
        requires
            old(self).wf(),
        ensures
            final(self).wf(),
            Self::change_step(*old(self), id, token, state, *final(self), removed),
    {
        if self.holds_exec(id, token) && terminal(state) {
            self.drop_session(id);
            true
        } else {
            false
        }
    }

    /// Handles the abandonment timeout scheduled for the registration
    /// `token` of connection `id`, whose current state is `state`: when that
    /// registration is live, still `New`, and no answer was applied to it,
    /// it is removed. Returns whether it was removed.
    pub fn reap_abandoned(&mut self, id: u32, token: u64, state: PeerState) -> (removed: bool)
        requires
            old(self).wf(),
        ensures
            final(self).wf(),
            Self::reap_step(*old(self), id, token, state, *final(self), removed),
    {
        if self.holds_exec(id, token) && state == PeerState::New && !self.answered.contains(&id) {
            self.drop_session(id);
            assert(self.answered@ =~= old(self).answered@);
            true
        } else {
            false
        }
    }

    /// Records that an answer is to be applied to connection `id`. Returns
    /// whether the connection is live; for an absent handle nothing changes
    /// and no answer is to be applied.
    pub fn accept_answer(&mut self, id: u32) -> (applied: bool)
        requires
            old(self).wf(),
        ensures
            final(self).wf(),
            Self::answer_step(*old(self), id, *final(self), applied),
    {
        if self.peers.get(id).is_some() {
            self.answered.insert(id);
            true
        } else {
            false
        }
    }

    /// Takes back the answer record of registration `token` of connection
    /// `id`, when applying the answer failed, so that an abandonment timeout
    /// can remove it again. Returns whether that registration is live.
    pub fn withdraw_answer(&mut self, id: u32, token: u64) -> (live: bool)
        requires
            old(self).wf(),
        ensures
            final(self).wf(),
            live == old(self).holds(id, token),
            final(self)@ == old(self)@,
            final(self).tokens() == old(self).tokens(),
            final(self).next_token() == old(self).next_token(),
            final(self).answered_handles() == if live {
                old(self).answered_handles().remove(id)
            } else {
                old(self).answered_handles()
            },
    {
        if self.holds_exec(id, token) {
            self.answered.remove(&id);
            true
        } else {
            false
        }
    }
}

} // verus!
