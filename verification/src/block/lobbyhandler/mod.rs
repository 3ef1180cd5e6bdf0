//! Lobbies: twelve player slots (more crash the client). A lobby keeps its
//! players' slots and its leader; joining and leaving players are announced
//! to the others.

pub mod error;
pub mod event;

use vstd::prelude::*;
use vstd::string::StringExecFns;

use crate::block::slots::{
    occupied, first_empty, slot_of, first_other, holds, recipients, occupants, lemma_slot_of, lemma_first_other,
    lemma_first_empty, lemma_count_pos, lemma_count_bound, count_from, lemma_count_fill, lemma_count_clear,
    lemma_count_zero_empty, lemma_slot_of_at, count_occupied, find_first_empty, find_slot,
    find_first_other, broadcast_targets, occupant_list, occupants_except, occupant_list_except, lemma_count_single,
};

use self::error::LobbyError;

verus! {

/// The number of player slots of a lobby.
pub const MAX_PLAYERS: usize = 12;

/// What a joining player is told, and whom the lobby tells about them.
pub struct LobbyJoinPlan {
    /// The joiner's slot.
    pub client_id: u8,
    pub leader_id: u8,
    pub lobby_num: u8,
    pub block_num: u16,
    pub event: u16,
    /// The other members with their slots: each is told that the joiner
    /// was added.
    pub notify: Vec<(u8, usize)>,
    /// Every member after the join, the joiner too, with their slots: the
    /// joiner is sent this list.
    pub members: Vec<(u8, usize)>,
    /// Then this client, the joiner, is sent their own quest data (as
    /// subcommand 0x60, for client 0).
    pub quest_data_to: usize,
}

/// How a lobby's players are reloaded after its event changed: each of
/// them is sent `message`, asking them to re-enter the lobby.
pub struct EventReload {
    /// The players to reload, in slot order.
    pub reload: Vec<usize>,
    pub message: String,
}

/// What the remaining members are told when a player leaves a lobby that
/// does not become empty.
pub struct LobbyLeavePlan {
    /// The slot the player left.
    pub client_id: u8,
    /// The leader after the player left.
    pub leader_id: u8,
    /// The members that are told, in slot order.
    pub notify: Vec<usize>,
}

/// A lobby.
pub struct Lobby {
    players: [Option<usize>; 12],
    lobby_num: u8,
    block_num: u16,
    event: u16,
    leader_id: u8,
}

/// The slots and leader after `player` joins a lobby with slots `m` and
/// leader `leader` that does not hold them and has a free slot.
pub open spec fn join_state(m: Seq<Option<usize>>, leader: u8, player: usize) -> (Seq<Option<usize>>, u8) {
    let i = first_empty(m)->0;
    (m.update(i, Some(player)), if occupied(m) == 0 { i as u8 } else { leader })
}

/// The slots and leader after `player` leaves a lobby with slots `m` and
/// leader `leader` that holds them.
pub open spec fn leave_state(m: Seq<Option<usize>>, leader: u8, player: usize) -> (Seq<Option<usize>>, u8) {
    if occupied(m) == 1 {
        (Seq::new(12, |_i: int| None::<usize>), 0u8)
    } else {
        let i = slot_of(m, player)->0;
        (m.update(i, None), if leader as int == i { first_other(m, player)->0 as u8 } else { leader })
    }
}

/// A lobby's slots and leader satisfy its invariant.
pub open spec fn lobby_state_ok(m: Seq<Option<usize>>, leader: u8) -> bool {
    &&& m.len() == 12
    &&& leader < 12
    &&& distinct_players(m)
    &&& occupied(m) > 0 ==> m[leader as int] is Some
}

/// No player holds two slots.
pub open spec fn distinct_players(m: Seq<Option<usize>>) -> bool {
    forall|i: int, j: int|
        0 <= i < m.len() && 0 <= j < m.len() && i != j && #[trigger] m[i] is Some ==> #[trigger] m[j] != m[i]
}

impl Lobby {
    /// The player slots.
    pub closed spec fn players(&self) -> Seq<Option<usize>> {
        self.players@
    }

    /// The leader's slot.
    pub closed spec fn leader(&self) -> u8 {
        self.leader_id
    }

    /// The lobby number (0 to 14).
    pub closed spec fn spec_lobby_num(&self) -> u8 {
        self.lobby_num
    }

    /// The block number.
    pub closed spec fn spec_block_num(&self) -> u16 {
        self.block_num
    }

    /// The seasonal event code.
    pub closed spec fn spec_event(&self) -> u16 {
        self.event
    }

    /// The lobby's invariant: twelve slots, no player twice, and a
    /// non-empty lobby's leader slot holds a player.
    pub closed spec fn wf(&self) -> bool {
        lobby_state_ok(self.players@, self.leader_id)
    }

    /// The invariant, in terms of the slots and the leader.
    pub proof fn lemma_wf(&self)
        ensures
            self.wf() <==> lobby_state_ok(self.players(), self.leader()),
    {
    }

    /// A new, empty lobby. `num` (0 to 14, one less than the number the
    /// client shows) is the lobby number sent to joiners, `event` the
    /// lobby's seasonal event code: lobbies of one block can have different
    /// events.
    pub fn new(num: u8, block: u16, event: u16) -> (l: Lobby)
        ensures
            l.wf(),
            l.players() == Seq::new(12, |_i: int| None::<usize>),
            l.leader() == 0,
            l.spec_lobby_num() == num,
            l.spec_block_num() == block,
            l.spec_event() == event,
    {
        let l = Lobby {
            players: [None, None, None, None, None, None, None, None, None, None, None, None],
            lobby_num: num,
            block_num: block,
            event,
            leader_id: 0,
        };
        proof {
            assert(l.players@ =~= Seq::new(12, |_i: int| None::<usize>));
            assert(occupied(l.players@) == 0) by {
                reveal_with_fuel(count_from, 13);
            }
        }
        l
    }

    /// The connections a broadcast from `sent_by` reaches: every player but
    /// `sent_by`, in slot order.
    pub fn bb_broadcast(&self, sent_by: Option<usize>) -> (r: Vec<usize>)
        ensures
            r@ == recipients(self.players(), sent_by),
    {
        broadcast_targets(&self.players, sent_by)
    }

    /// The number of players.
    pub fn num_players(&self) -> (r: usize)
        ensures
            r == occupied(self.players()),
    {
        count_occupied(&self.players)
    }

    /// Whether every slot is taken.
    pub fn is_full(&self) -> (r: bool)
        ensures
            r == (occupied(self.players()) >= 12),
    {
        self.num_players() >= 12
    }

    /// Whether no slot is taken.
    pub fn is_empty(&self) -> (r: bool)
        ensures
            r == (occupied(self.players()) == 0),
    {
        self.num_players() == 0
    }

    /// Sets the event; it shows for players that join from now on.
    pub fn set_event(&mut self, event: u16)
        requires
            old(self).wf(),
        ensures
            final(self).wf(),
            final(self).spec_event() == event,
            final(self).players() == old(self).players(),
            final(self).leader() == old(self).leader(),
            final(self).spec_lobby_num() == old(self).spec_lobby_num(),
            final(self).spec_block_num() == old(self).spec_block_num(),
    {
        self.event = event;
    }

    /// Whether the player is in this lobby.
    pub fn has_player(&self, client: usize) -> (r: bool)
        ensures
            r == holds(self.players(), client),
    {
        let found = find_slot(&self.players, client);
        proof {
            lemma_slot_of(self.players(), client, 0);
        }
        found.is_some()
    }

    /// The lobby number.
    pub fn lobby_num(&self) -> (r: u8)
        ensures
            r == self.spec_lobby_num(),
    {
        self.lobby_num
    }

    /// The block number.
    pub fn block_num(&self) -> (r: u16)
        ensures
            r == self.spec_block_num(),
    {
        self.block_num
    }

    /// The event code.
    pub fn event_num(&self) -> (r: u16)
        ensures
            r == self.spec_event(),
    {
        self.event
    }

    /// Sets the event and reloads all the lobby's players: each of them is
    /// sent a message asking them to re-enter the lobby to see the new
    /// event.
    pub fn set_event_reload(&mut self, event: u16) -> (r: EventReload)
        requires
            old(self).wf(),
        ensures
            final(self).wf(),
            final(self).spec_event() == event,
            final(self).players() == old(self).players(),
            final(self).leader() == old(self).leader(),
            final(self).spec_lobby_num() == old(self).spec_lobby_num(),
            final(self).spec_block_num() == old(self).spec_block_num(),
            r.reload@ == recipients(old(self).players(), None),
            r.message@ == "\tEPlease re-enter the\nlobby to see the\nnew event."@,
    {
        self.event = event;
        let reload = broadcast_targets(&self.players, None);
        EventReload { reload, message: String::from_str("\tEPlease re-enter the\nlobby to see the\nnew event.") }
    }

    /// The players a 0x60 subcommand from `sender` is relayed to.
    pub fn handle_bb_subcmd_60(&self, sender: usize) -> (r: Vec<usize>)
        ensures
            r@ == recipients(self.players(), Some(sender)),
    {
        self.bb_broadcast(Some(sender))
    }

    /// The players a 0x6C subcommand from `sender` is relayed to.
    pub fn handle_bb_subcmd_6c(&self, sender: usize) -> (r: Vec<usize>)
        ensures
            r@ == recipients(self.players(), Some(sender)),
    {
        self.bb_broadcast(Some(sender))
    }

    /// The lobby state besides its slots and leader is unchanged.
    pub open spec fn same_setup(&self, other: &Lobby) -> bool {
        &&& self.spec_lobby_num() == other.spec_lobby_num()
        &&& self.spec_block_num() == other.spec_block_num()
        &&& self.spec_event() == other.spec_event()
    }

    /// `after` is this lobby once `player` joined it, and `plan` tells of
    /// the join: the player takes the first free slot and leads the lobby
    /// if it was empty.
    pub open spec fn joined_as(&self, after: &Lobby, player: usize, plan: LobbyJoinPlan) -> bool {
        let i = first_empty(self.players())->0;
        &&& first_empty(self.players()) is Some
        &&& (after.players(), after.leader()) == join_state(self.players(), self.leader(), player)
        &&& after.players() == self.players().update(i, Some(player))
        &&& after.leader() == (if occupied(self.players()) == 0 { i as u8 } else { self.leader() })
        &&& after.same_setup(self)
        &&& plan.client_id == i
        &&& plan.leader_id == after.leader()
        &&& plan.lobby_num == self.spec_lobby_num()
        &&& plan.block_num == self.spec_block_num()
        &&& plan.event == self.spec_event()
        &&& plan.notify@ == occupants_except(after.players(), player)
        &&& plan.members@ == occupants(after.players())
        &&& plan.quest_data_to == player
    }

    /// `after` is this lobby once `player`, who is in it, left it, and
    /// `plan` tells the others (`None` when no one is left: the lobby is
    /// reset).
    pub open spec fn left_as(&self, after: &Lobby, player: usize, plan: Option<LobbyLeavePlan>) -> bool {
        &&& after.same_setup(self)
        &&& occupied(self.players()) == 1 ==> {
            &&& plan is None
            &&& after.players() == Seq::new(12, |_i: int| None::<usize>)
            &&& after.leader() == 0
        }
        &&& occupied(self.players()) != 1 ==> (plan matches Some(p) && {
            let i = slot_of(self.players(), player)->0;
            let new_leader = if self.leader() as int == i {
                first_other(self.players(), player)->0 as u8
            } else {
                self.leader()
            };
            &&& first_other(self.players(), player) is Some
            &&& (after.players(), after.leader()) == leave_state(self.players(), self.leader(), player)
            &&& after.players() == self.players().update(i, None)
            &&& after.leader() == new_leader
            &&& p.client_id == i
            &&& p.leader_id == new_leader
            &&& p.notify@ == recipients(after.players(), Some(player))
        })
    }

    /// A player who left a lobby is no longer in it.
    pub proof fn lemma_left_gone(&self, after: &Lobby, player: usize, plan: Option<LobbyLeavePlan>)
        requires
            self.wf(),
            holds(self.players(), player),
            self.left_as(after, player, plan),
        ensures
            !holds(after.players(), player),
    {
        lemma_slot_of(self.players(), player, 0);
        let i = slot_of(self.players(), player)->0;
        if occupied(self.players()) != 1 {
            assert forall|j: int| 0 <= j < after.players().len() implies after.players()[j] != Some(player) by {
                if j != i && self.players()[j] == Some(player) {
                    assert(self.players()[i] is Some);
                }
            }
        }
    }

    /// Adds a player to the first free slot. A player joining an empty
    /// lobby leads it.
    pub fn add_player(&mut self, player: usize) -> (r: Result<LobbyJoinPlan, LobbyError>)
        requires
            old(self).wf(),
        ensures
            final(self).wf(),
            holds(old(self).players(), player) ==> r == Err::<LobbyJoinPlan, LobbyError>(LobbyError::AlreadyInLobby)
                && *final(self) == *old(self),
            !holds(old(self).players(), player) && first_empty(old(self).players()) is None ==> r == Err::<
                LobbyJoinPlan,
                LobbyError,
            >(LobbyError::IsFull) && *final(self) == *old(self),
            !holds(old(self).players(), player) && first_empty(old(self).players()) is Some ==> (r matches Ok(plan)
                && old(self).joined_as(final(self), player, plan)),
    {
        if self.has_player(player) {
            return Err(LobbyError::AlreadyInLobby);
        }
        let slot = match find_first_empty(&self.players) {
            Some(s) => s,
            None => return Err(LobbyError::IsFull),
        };
        proof {
            lemma_first_empty(self.players(), 0);
        }
        if self.is_empty() {
            // This player is going to lead the lobby.
            self.leader_id = slot as u8;
        }
        self.players.set(slot, Some(player));
        let notify = occupant_list_except(&self.players, player);
        let members = occupant_list(&self.players);
        Ok(LobbyJoinPlan {
            client_id: slot as u8,
            leader_id: self.leader_id,
            lobby_num: self.lobby_num,
            block_num: self.block_num,
            event: self.event,
            notify,
            members,
            quest_data_to: player,
        })
    }

    /// Removes a player. When the last player leaves, the lobby is reset
    /// and no one is told (`None`). Otherwise, when the leader leaves, the
    /// player in the lowest other slot leads, and the others are told.
    pub fn remove_player(&mut self, player: usize) -> (r: Result<Option<LobbyLeavePlan>, LobbyError>)
        requires
            old(self).wf(),
        ensures
            final(self).wf(),
            !holds(old(self).players(), player) ==> r == Err::<Option<LobbyLeavePlan>, LobbyError>(LobbyError::NotInLobby)
                && *final(self) == *old(self),
            holds(old(self).players(), player) ==> (r matches Ok(plan) && old(self).left_as(final(self), player, plan)),
    {
        if !self.has_player(player) {
            return Err(LobbyError::NotInLobby);
        }
        proof {
            lemma_slot_of(self.players(), player, 0);
            lemma_first_other(self.players(), player, 0);
        }
        let ghost i0 = slot_of(self.players(), player)->0;
        proof {
            lemma_count_pos(self.players(), 0, i0);
        }
        if self.num_players() == 1 {
            // The lobby is empty now.
            self.leader_id = 0;
            self.players = [None, None, None, None, None, None, None, None, None, None, None, None];
            proof {
                assert(self.players@ =~= Seq::new(12, |_i: int| None::<usize>));
                crate::block::slots::lemma_count_zero(self.players@, 0);
            }
            return Ok(None);
        }
        proof {
            if first_other(self.players(), player) is None {
                assert forall|j: int| 0 <= j < 12 && j != i0 implies self.players()[j] is None by {
                    if self.players()[j] is Some {
                        assert(self.players()[j] == Some(player));
                    }
                }
                lemma_count_single(self.players(), 0, i0);
            }
        }
        let cid = match self.client_id_for_player(player) {
            Some(c) => c,
            None => 0,
        };
        if self.leader_id == cid {
            // Elect a new leader.
            match find_first_other(&self.players, player) {
                Some((ii, _)) => {
                    self.leader_id = ii as u8;
                },
                None => {},
            }
        }
        self.players.set(cid as usize, None);
        proof {
            lemma_first_other(old(self).players(), player, 0);
            if occupied(self.players()) > 0 {
                assert(self.players()[self.leader_id as int] is Some);
            }
        }
        let notify = self.bb_broadcast(Some(player));
        Ok(Some(LobbyLeavePlan { client_id: cid, leader_id: self.leader_id, notify }))
    }

    /// The slot of the player, if they are in the lobby.
    fn client_id_for_player(&self, player: usize) -> (r: Option<u8>)
        requires
            self.wf(),
        ensures
            r matches Some(i) ==> slot_of(self.players(), player) == Some(i as int),
            r is None ==> slot_of(self.players(), player) is None,
    {
        match find_slot(&self.players, player) {
            Some(i) => {
                proof {
                    lemma_slot_of(self.players(), player, 0);
                }
                Some(i as u8)
            },
            None => None,
        }
    }
}

/// Joining a lobby puts the player in it and adds one to its count; the
/// invariant holds after the join.
pub proof fn law_lobby_join(m: Seq<Option<usize>>, leader: u8, player: usize)
    requires
        lobby_state_ok(m, leader),
        !holds(m, player),
        first_empty(m) is Some,
    ensures
        holds(join_state(m, leader, player).0, player),
        occupied(join_state(m, leader, player).0) == occupied(m) + 1,
        lobby_state_ok(join_state(m, leader, player).0, join_state(m, leader, player).1),
{
    lemma_first_empty(m, 0);
    let i = first_empty(m)->0;
    lemma_count_fill(m, 0, i, player);
    let m1 = join_state(m, leader, player).0;
    assert(m1[i] == Some(player));
}

/// Leaving a lobby takes the player out of it and one from its count; the
/// invariant holds after the leave.
pub proof fn law_lobby_leave(m: Seq<Option<usize>>, leader: u8, player: usize)
    requires
        lobby_state_ok(m, leader),
        holds(m, player),
    ensures
        !holds(leave_state(m, leader, player).0, player),
        occupied(leave_state(m, leader, player).0) + 1 == occupied(m),
        lobby_state_ok(leave_state(m, leader, player).0, leave_state(m, leader, player).1),
{
    lemma_slot_of(m, player, 0);
    lemma_first_other(m, player, 0);
    let i = slot_of(m, player)->0;
    lemma_count_pos(m, 0, i);
    if occupied(m) == 1 {
        let e = Seq::new(12, |_i: int| None::<usize>);
        crate::block::slots::lemma_count_zero(e, 0);
    } else {
        lemma_count_clear(m, 0, i);
        if first_other(m, player) is None {
            assert forall|j: int| 0 <= j < 12 && j != i implies m[j] is None by {
                if m[j] is Some {
                    assert(m[j] == Some(player));
                }
            }
            lemma_count_single(m, 0, i);
        }
        let m1 = m.update(i, None);
        assert forall|j: int| 0 <= j < 12 implies m1[j] != Some(player) by {
            if j != i && m[j] is Some {
                assert(m[j] != m[i]);
            }
        }
    }
}

/// A player who joins and then leaves again leaves the lobby as it was:
/// the same slots, and, when the lobby was not empty, the same leader.
pub proof fn law_lobby_leave_undoes_join(m: Seq<Option<usize>>, leader: u8, player: usize)
    requires
        lobby_state_ok(m, leader),
        !holds(m, player),
        first_empty(m) is Some,
    ensures
        ({
            let (m1, l1) = join_state(m, leader, player);
            let (m2, l2) = leave_state(m1, l1, player);
            &&& m2 == m
            &&& occupied(m) > 0 ==> l2 == leader
        }),
{
    lemma_first_empty(m, 0);
    let i = first_empty(m)->0;
    lemma_count_fill(m, 0, i, player);
    let (m1, l1) = join_state(m, leader, player);
    assert forall|j: int| 0 <= j < i implies m1[j] != Some(player) by {
        assert(m[j] != Some(player));
    }
    lemma_slot_of_at(m1, player, 0, i);
    if occupied(m) == 0 {
        lemma_count_zero_empty(m, 0);
        assert(m =~= Seq::new(12, |_i: int| None::<usize>));
    } else {
        assert(m1.update(i, None) =~= m);
        assert(m[leader as int] is Some);
    }
}

/// A player who joins a lobby and leaves it again leaves it as it was: the
/// same slots, the same setup, and, where the lobby was not empty, the same
/// leader.
pub proof fn law_lobby_join_then_leave_restores(
    before: Lobby,
    mid: Lobby,
    after: Lobby,
    player: usize,
    joined: LobbyJoinPlan,
    left: Option<LobbyLeavePlan>,
)
    requires
        before.wf(),
        !holds(before.players(), player),
        first_empty(before.players()) is Some,
        before.joined_as(&mid, player, joined),
        mid.left_as(&after, player, left),
    ensures
        after.players() == before.players(),
        after.same_setup(&before),
        occupied(before.players()) > 0 ==> after.leader() == before.leader(),
{
    law_lobby_leave_undoes_join(before.players(), before.leader(), player);
    law_lobby_join(before.players(), before.leader(), player);
    let (m2, l2) = leave_state(mid.players(), mid.leader(), player);
    if occupied(mid.players()) == 1 {
        assert((after.players(), after.leader()) == (m2, l2));
    }
}

} // verus!
