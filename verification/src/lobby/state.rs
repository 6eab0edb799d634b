//! A view of the lobbies that the user is in, kept up to date by the events
//! of the lobby class.

use vstd::prelude::*;
use crate::lobby::events::LobbyEvent;
use crate::lobby::{Lobby, LobbyId, LobbyMember, LobbyMessage};
use crate::user::UserId;

verus! {

/// A lobby and the messages that were sent to it.
#[derive(Debug, Clone, PartialEq, Eq)]
pub struct LobbyState {
    pub lobby: Lobby,
    pub messages: Vec<LobbyMessage>,
}

/// The lobbies that the user is in.
#[derive(Debug, Clone, PartialEq, Eq)]
pub struct LobbyStates {
    pub lobbies: Vec<LobbyState>,
}

/// Whether `i` is the place of the first lobby with the id `id`.
pub open spec fn is_first_lobby(lobbies: Seq<LobbyState>, id: LobbyId, i: int) -> bool {
    &&& 0 <= i < lobbies.len()
    &&& lobbies[i].lobby.id == id
    &&& forall|j: int| 0 <= j < i ==> (#[trigger] lobbies[j]).lobby.id != id
}

/// Whether no lobby has the id `id`.
pub open spec fn no_lobby(lobbies: Seq<LobbyState>, id: LobbyId) -> bool {
    forall|j: int| 0 <= j < lobbies.len() ==> (#[trigger] lobbies[j]).lobby.id != id
}

/// Whether `m` is the place of the first member with the user id `id`.
pub open spec fn is_first_member(members: Seq<LobbyMember>, id: UserId, m: int) -> bool {
    &&& 0 <= m < members.len()
    &&& members[m].user.id == id
    &&& forall|j: int| 0 <= j < m ==> (#[trigger] members[j]).user.id != id
}

/// Whether no member has the user id `id`.
pub open spec fn no_member(members: Seq<LobbyMember>, id: UserId) -> bool {
    forall|j: int| 0 <= j < members.len() ==> (#[trigger] members[j]).user.id != id
}

/// Whether `after` is `before` with the lobby at `i` replaced by one that
/// differs from it only in its members, which are `members`.
pub open spec fn members_replaced(
    before: Seq<LobbyState>,
    after: Seq<LobbyState>,
    i: int,
    members: Seq<LobbyMember>,
) -> bool {
    &&& after.len() == before.len()
    &&& forall|j: int| 0 <= j < before.len() && j != i ==> after[j] == before[j]
    &&& after[i].messages == before[i].messages
    &&& after[i].lobby.members@ == members
    &&& after[i].lobby == (Lobby { members: after[i].lobby.members, ..before[i].lobby })
}

/// Whether `after` is `before` after the member `user_id` of the lobby
/// `lobby_id` was replaced by `member`. Without such a lobby or such a
/// member nothing changes.
pub open spec fn member_set(
    before: Seq<LobbyState>,
    after: Seq<LobbyState>,
    lobby_id: LobbyId,
    user_id: UserId,
    member: spec_fn(LobbyMember) -> LobbyMember,
) -> bool {
    &&& no_lobby(before, lobby_id) ==> after == before
    &&& forall|i: int| #[trigger]
        is_first_lobby(before, lobby_id, i) ==> {
            let members = before[i].lobby.members@;
            &&& no_member(members, user_id) ==> after == before
            &&& forall|m: int| #[trigger]
                is_first_member(members, user_id, m) ==> members_replaced(
                    before,
                    after,
                    i,
                    members.update(m, member(members[m])),
                )
        }
}

/// Whether `after` is what the event makes of `before`.
///
/// A lobby that was created or connected to is added at the end. A delete
/// takes the first lobby with the id out and puts the last in its place. An
/// update copies capacity, kind, lock, metadata and owner into the first
/// lobby with the id. A member that connects is added to the lobby's
/// members; one that disconnects is taken out; one that is updated is
/// replaced, and keeps whether it is speaking. A message is added to the
/// lobby's messages. Speaking starts and stops on the member in question.
/// An event for a lobby or a member that is not there changes nothing.
pub open spec fn is_reduction(before: Seq<LobbyState>, le: LobbyEvent, after: Seq<LobbyState>) -> bool {
    match le {
        LobbyEvent::Create(lobby) | LobbyEvent::Connect(lobby) => {
            &&& after.len() == before.len() + 1
            &&& after.drop_last() == before
            &&& after.last().lobby == lobby
            &&& after.last().messages@.len() == 0
        },
        LobbyEvent::Delete { id } => {
            &&& no_lobby(before, id) ==> after == before
            &&& forall|i: int| #[trigger]
                is_first_lobby(before, id, i) ==> after == before.update(
                    i,
                    before.last(),
                ).drop_last()
        },
        LobbyEvent::Update(lobby) => {
            &&& no_lobby(before, lobby.id) ==> after == before
            &&& forall|i: int| #[trigger]
                is_first_lobby(before, lobby.id, i) ==> after == before.update(
                    i,
                    LobbyState {
                        lobby: Lobby {
                            capacity: lobby.capacity,
                            kind: lobby.kind,
                            locked: lobby.locked,
                            metadata: lobby.metadata,
                            owner_id: lobby.owner_id,
                            ..before[i].lobby
                        },
                        messages: before[i].messages,
                    },
                )
        },
        LobbyEvent::MemberConnect(me) => {
            &&& no_lobby(before, me.lobby_id) ==> after == before
            &&& forall|i: int| #[trigger]
                is_first_lobby(before, me.lobby_id, i) ==> members_replaced(
                    before,
                    after,
                    i,
                    before[i].lobby.members@.push(me.member),
                )
        },
        LobbyEvent::MemberDisconnect(me) => {
            &&& no_lobby(before, me.lobby_id) ==> after == before
            &&& forall|i: int| #[trigger]
                is_first_lobby(before, me.lobby_id, i) ==> {
                    let members = before[i].lobby.members@;
                    &&& no_member(members, me.member.user.id) ==> after == before
                    &&& forall|m: int| #[trigger]
                        is_first_member(members, me.member.user.id, m) ==> members_replaced(
                            before,
                            after,
                            i,
                            members.remove(m),
                        )
                }
        },
        LobbyEvent::MemberUpdate(me) => member_set(
            before,
            after,
            me.lobby_id,
            me.member.user.id,
            |was: LobbyMember| LobbyMember { speaking: was.speaking, ..me.member },
        ),
        LobbyEvent::Message(msg) => {
            &&& no_lobby(before, msg.lobby_id) ==> after == before
            &&& forall|i: int| #[trigger]
                is_first_lobby(before, msg.lobby_id, i) ==> {
                    &&& after.len() == before.len()
                    &&& forall|j: int| 0 <= j < before.len() && j != i ==> after[j] == before[j]
                    &&& after[i].lobby == before[i].lobby
                    &&& after[i].messages@ == before[i].messages@.push(msg.data)
                }
        },
        LobbyEvent::SpeakingStart(se) => member_set(
            before,
            after,
            se.lobby_id,
            se.user_id,
            |was: LobbyMember| LobbyMember { speaking: true, ..was },
        ),
        LobbyEvent::SpeakingStop(se) => member_set(
            before,
            after,
            se.lobby_id,
            se.user_id,
            |was: LobbyMember| LobbyMember { speaking: false, ..was },
        ),
    }
}

/// Finds the first member with the user id `id`.
pub fn find_member(members: &Vec<LobbyMember>, id: UserId) -> (r: Option<usize>)
    ensures
        match r {
            Some(m) => is_first_member(members@, id, m as int),
            None => no_member(members@, id),
        },
{
    let mut m: usize = 0;
    while m < members.len()
        invariant
            0 <= m <= members@.len(),
            forall|j: int| 0 <= j < m ==> (#[trigger] members@[j]).user.id != id,
        decreases members@.len() - m,
    {
        if members[m].user.id == id {
            return Some(m);
        }
        m += 1;
    }
    None
}

impl LobbyStates {
    /// No lobbies.
    pub fn new() -> (s: LobbyStates)
        ensures
            s.lobbies@.len() == 0,
    {
        LobbyStates { lobbies: Vec::new() }
    }

    /// Finds the first lobby with the id `id`.
    pub fn find_lobby(&self, id: LobbyId) -> (r: Option<usize>)
        ensures
            match r {
                Some(i) => is_first_lobby(self.lobbies@, id, i as int),
                None => no_lobby(self.lobbies@, id),
            },
    {
        let mut i: usize = 0;
        while i < self.lobbies.len()
            invariant
                0 <= i <= self.lobbies@.len(),
                forall|j: int| 0 <= j < i ==> (#[trigger] self.lobbies@[j]).lobby.id != id,
            decreases self.lobbies@.len() - i,
        {
            if self.lobbies[i].lobby.id == id {
                return Some(i);
            }
            i += 1;
        }
        None
    }

    fn mut_member(&mut self, lid: LobbyId, mid: UserId, replacement: Option<LobbyMember>, speaking: Option<bool>)
        ensures
            member_set(
                old(self).lobbies@,
                final(self).lobbies@,
                lid,
                mid,
                |was: LobbyMember|
                    {
                        let base = match replacement {
                            Some(r) => r,
                            None => was,
                        };
                        LobbyMember {
                            speaking: match speaking {
                                Some(s) => s,
                                None => was.speaking,
                            },
                            ..base
                        }
                    },
            ),
    {
        let i = match self.find_lobby(lid) {
            Some(i) => i,
            None => {
                return ;
            },
        };
        let m = match find_member(&self.lobbies[i].lobby.members, mid) {
            Some(m) => m,
            None => {
                return ;
            },
        };
        let ghost before = self.lobbies@;
        let mut state = self.lobbies.remove(i);
        let was = state.lobby.members.remove(m);
        let was_speaking = was.speaking;
        let mut member = match replacement {
            Some(r) => r,
            None => was,
        };
        member.speaking = match speaking {
            Some(s) => s,
            None => was_speaking,
        };
        state.lobby.members.insert(m, member);
        assert(state.lobby.members@ =~= before[i as int].lobby.members@.update(m as int, member));
        self.lobbies.insert(i, state);
        assert(self.lobbies@ =~= before.update(i as int, state));
        assert forall|i2: int| #[trigger] is_first_lobby(before, lid, i2) implies i2 == i by {
            if i2 < i {
                assert(before[i2].lobby.id != lid);
            } else if i < i2 {
                assert(before[i as int].lobby.id != lid);
            }
        }
        assert forall|m2: int| #[trigger]
            is_first_member(before[i as int].lobby.members@, mid, m2) implies m2 == m by {
            let members = before[i as int].lobby.members@;
            if m2 < m {
                assert(members[m2].user.id != mid);
            } else if m < m2 {
                assert(members[m as int].user.id != mid);
            }
        }
        assert(!no_lobby(before, lid)) by {
            assert(before[i as int].lobby.id == lid);
        }
        assert(!no_member(before[i as int].lobby.members@, mid)) by {
            assert(before[i as int].lobby.members@[m as int].user.id == mid);
        }
    }

    /// Takes an event of the lobby class into the view.
    pub fn on_event(&mut self, le: LobbyEvent)
        ensures
            is_reduction(old(self).lobbies@, le, final(self).lobbies@),
    {
        let ghost before = self.lobbies@;
        match le {
            LobbyEvent::Create(lobby) | LobbyEvent::Connect(lobby) => {
                self.lobbies.push(LobbyState { lobby, messages: Vec::new() });
                assert(self.lobbies@.drop_last() =~= before);
            },
            LobbyEvent::Delete { id } => {
                if let Some(i) = self.find_lobby(id) {
                    self.lobbies.swap_remove(i);
                    proof {
                        lemma_unique_lobby(before, id, i as int);
                    }
                }
            },
            LobbyEvent::Update(lobby) => {
                if let Some(i) = self.find_lobby(lobby.id) {
                    let mut state = self.lobbies.remove(i);
                    state.lobby.capacity = lobby.capacity;
                    state.lobby.kind = lobby.kind;
                    state.lobby.locked = lobby.locked;
                    state.lobby.metadata = lobby.metadata;
                    state.lobby.owner_id = lobby.owner_id;
                    self.lobbies.insert(i, state);
                    assert(self.lobbies@ =~= before.update(i as int, state));
                    proof {
                        lemma_unique_lobby(before, lobby.id, i as int);
                    }
                }
            },
            LobbyEvent::MemberConnect(me) => {
                if let Some(i) = self.find_lobby(me.lobby_id) {
                    let mut state = self.lobbies.remove(i);
                    state.lobby.members.push(me.member);
                    self.lobbies.insert(i, state);
                    assert(self.lobbies@ =~= before.update(i as int, state));
                    proof {
                        lemma_unique_lobby(before, me.lobby_id, i as int);
                    }
                }
            },
            LobbyEvent::MemberDisconnect(me) => {
                if let Some(i) = self.find_lobby(me.lobby_id) {
                    if let Some(m) = find_member(&self.lobbies[i].lobby.members, me.member.user.id) {
                        let mut state = self.lobbies.remove(i);
                        state.lobby.members.remove(m);
                        self.lobbies.insert(i, state);
                        assert(self.lobbies@ =~= before.update(i as int, state));
                        let ghost members = before[i as int].lobby.members@;
                        assert forall|m2: int| #[trigger]
                            is_first_member(members, me.member.user.id, m2) implies m2 == m by {
                            if m2 < m {
                                assert(members[m2].user.id != me.member.user.id);
                            } else if m < m2 {
                                assert(members[m as int].user.id != me.member.user.id);
                            }
                        }
                        assert(!no_member(members, me.member.user.id)) by {
                            assert(members[m as int].user.id == me.member.user.id);
                        }
                    }
                    proof {
                        lemma_unique_lobby(before, me.lobby_id, i as int);
                    }
                }
            },
            LobbyEvent::MemberUpdate(me) => {
                let lobby_id = me.lobby_id;
                let user_id = me.member.user.id;
                self.mut_member(lobby_id, user_id, Some(me.member), None);
                assert(is_reduction(before, le, self.lobbies@)) by {
                    lemma_member_set_ext(
                        before,
                        self.lobbies@,
                        lobby_id,
                        user_id,
                        |was: LobbyMember|
                            {
                                let base = match Some(me.member) {
                                    Some(r) => r,
                                    None => was,
                                };
                                LobbyMember {
                                    speaking: match None::<bool> {
                                        Some(s) => s,
                                        None => was.speaking,
                                    },
                                    ..base
                                }
                            },
                        |was: LobbyMember| LobbyMember { speaking: was.speaking, ..me.member },
                    );
                }
            },
            LobbyEvent::Message(msg) => {
                if let Some(i) = self.find_lobby(msg.lobby_id) {
                    let mut state = self.lobbies.remove(i);
                    state.messages.push(msg.data);
                    self.lobbies.insert(i, state);
                    assert(self.lobbies@ =~= before.update(i as int, state));
                    proof {
                        lemma_unique_lobby(before, msg.lobby_id, i as int);
                    }
                }
            },
            LobbyEvent::SpeakingStart(se) => {
                self.mut_member(se.lobby_id, se.user_id, None, Some(true));
                assert(is_reduction(before, le, self.lobbies@)) by {
                    lemma_member_set_ext(
                        before,
                        self.lobbies@,
                        se.lobby_id,
                        se.user_id,
                        |was: LobbyMember|
                            {
                                let base = match None::<LobbyMember> {
                                    Some(r) => r,
                                    None => was,
                                };
                                LobbyMember {
                                    speaking: match Some(true) {
                                        Some(s) => s,
                                        None => was.speaking,
                                    },
                                    ..base
                                }
                            },
                        |was: LobbyMember| LobbyMember { speaking: true, ..was },
                    );
                }
            },
            LobbyEvent::SpeakingStop(se) => {
                self.mut_member(se.lobby_id, se.user_id, None, Some(false));
                assert(is_reduction(before, le, self.lobbies@)) by {
                    lemma_member_set_ext(
                        before,
                        self.lobbies@,
                        se.lobby_id,
                        se.user_id,
                        |was: LobbyMember|
                            {
                                let base = match None::<LobbyMember> {
                                    Some(r) => r,
                                    None => was,
                                };
                                LobbyMember {
                                    speaking: match Some(false) {
                                        Some(s) => s,
                                        None => was.speaking,
                                    },
                                    ..base
                                }
                            },
                        |was: LobbyMember| LobbyMember { speaking: false, ..was },
                    );
                }
            },
        }
    }

}

/// The first lobby with an id is in one place only.
proof fn lemma_unique_lobby(before: Seq<LobbyState>, id: LobbyId, i: int)
    requires
        is_first_lobby(before, id, i),
    ensures
        forall|i2: int| #[trigger] is_first_lobby(before, id, i2) ==> i2 == i,
        !no_lobby(before, id),
{
    assert forall|i2: int| #[trigger] is_first_lobby(before, id, i2) implies i2 == i by {
        if i2 < i {
            assert(before[i2].lobby.id != id);
        } else if i < i2 {
            assert(before[i].lobby.id != id);
        }
    }
    assert(before[i].lobby.id == id);
}

/// Two ways to write one replacement of a member say the same of the lobbies.
proof fn lemma_member_set_ext(
    before: Seq<LobbyState>,
    after: Seq<LobbyState>,
    lobby_id: LobbyId,
    user_id: UserId,
    f: spec_fn(LobbyMember) -> LobbyMember,
    g: spec_fn(LobbyMember) -> LobbyMember,
)
    requires
        member_set(before, after, lobby_id, user_id, f),
        forall|m: LobbyMember| #[trigger] f(m) == g(m),
    ensures
        member_set(before, after, lobby_id, user_id, g),
{
}

} // verus!
