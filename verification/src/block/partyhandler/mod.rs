//! Parties: game instances of up to four players. A party keeps its
//! players' slots, its leader, which players are still loading into the
//! game ("bursting"), and the commands held back while someone bursts.

pub mod enemygen;
pub mod error;
pub mod exp;
pub mod layout;

use vstd::prelude::*;

use std::collections::VecDeque;

use crate::block::slots::{
    occupied, count_from, first_empty, slot_of, first_other, holds, recipients, lemma_slot_of,
    lemma_first_other, lemma_first_empty, count_occupied, find_first_empty, find_slot, find_first_other,
    broadcast_targets, occupants_except, occupant_list_except, lemma_count_fill,
    lemma_slot_of_at,
};
use crate::maps::{Areas, EnemyDesc, InstanceEnemy, descs};
use crate::util::random_usize;

use self::error::PartyError;
use self::exp::{ExpAward, CharProgress, LevelTable, award_defined, awarded, award_exp, exp_for_hit, hit_exp, table_view};
use self::layout::{
    ep1_ready, ep1_variants, ep1_enemies, ep2_ready, ep2_variants, ep2_enemies, ep4_ready, ep4_variants,
    ep4_enemies, raise_falz, random_variants_ep1, random_variants_ep2, random_variants_ep4,
};

verus! {

/// The number of player slots of a party.
pub const MAX_MEMBERS: usize = 4;

/// What the party logic reads of a subcommand.
#[derive(Clone, Copy, Debug, PartialEq, Eq, Structural)]
pub enum SubCmdKind {
    /// A subcommand the server does not interpret, with its command byte.
    Unknown(u8),
    /// A request for experience for hitting an enemy.
    ReqExp { enemy_id: u16, last_hitter: u8 },
    /// Any other interpreted subcommand.
    Other,
}

/// A subcommand: what the party reads of it, and the message itself,
/// which the party relays unchanged.
pub struct SubCmd<M> {
    pub kind: SubCmdKind,
    pub msg: M,
}

/// A subcommand with the command it came in: 0x60 and 0x6C go to every
/// other member, 0x62 and 0x6D to the member in slot `dest`.
pub enum Queued<M> {
    Cmd60(SubCmd<M>),
    Cmd62(u32, SubCmd<M>),
    Cmd6C(SubCmd<M>),
    Cmd6D(u32, SubCmd<M>),
}

/// What the server must do for a subcommand.
pub enum PartyAction<M> {
    /// Send the command to each of these connections, in order.
    Broadcast { to: Vec<usize>, cmd: Queued<M> },
    /// Send the command to one connection.
    Send { to: usize, cmd: Queued<M> },
    /// Award experience to `client` for a hit on enemy `enemy_id`.
    AwardExp { client: usize, enemy_id: u16, last_hitter: u8 },
}

/// An action as plain values.
pub enum ActionView<M> {
    Broadcast(Seq<usize>, Queued<M>),
    Send(usize, Queued<M>),
    AwardExp(usize, u16, u8),
}

/// The plain view of an action.
pub open spec fn action_view<M>(a: PartyAction<M>) -> ActionView<M> {
    match a {
        PartyAction::Broadcast { to, cmd } => ActionView::Broadcast(to@, cmd),
        PartyAction::Send { to, cmd } => ActionView::Send(to, cmd),
        PartyAction::AwardExp { client, enemy_id, last_hitter } => ActionView::AwardExp(client, enemy_id, last_hitter),
    }
}

/// The plain views of a list of actions.
pub open spec fn action_views<M>(s: Seq<PartyAction<M>>) -> Seq<ActionView<M>> {
    s.map_values(|a: PartyAction<M>| action_view(a))
}

/// What a joining player is told, and whom the party tells about them.
pub struct JoinPlan {
    /// The joiner's slot.
    pub client_id: u8,
    pub leader_id: u8,
    /// The party's section ID: the stored one, else the joiner's.
    pub section: u8,
    pub single_player: u8,
    pub difficulty: u8,
    pub episode: u8,
    /// The variant number of each area.
    pub maps: Vec<u32>,
    /// The slots after the join.
    pub players: Vec<Option<usize>>,
    /// The number of players after the join.
    pub count: u32,
    /// Every other member after the join, with their slot: each is told
    /// that the joiner was added.
    pub add_member_to: Vec<(u8, usize)>,
}

/// The outcome of a player leaving.
pub struct LeavePlan {
    /// The party has no one left to lead it and must be removed.
    pub destroy: bool,
    /// The slot the player left.
    pub client_id: u8,
    /// The leader after the player left.
    pub leader_id: u8,
    /// The members that are told, in slot order.
    pub notify: Vec<usize>,
}

/// The outcome of a player finishing their burst: they are pinged, every
/// member is told that the burst is done, and the held-back commands are
/// carried out.
pub struct BurstDone<M> {
    pub ping_to: usize,
    pub done_to: Vec<usize>,
    pub actions: Vec<PartyAction<M>>,
}

/// A 0x60 or 0x6C subcommand waits while someone bursts, unless it is an
/// uninterpreted one with command byte 0x7C.
pub open spec fn held_back_broadcast(kind: SubCmdKind) -> bool {
    kind matches SubCmdKind::Unknown(cmd) && cmd != 0x7C
}

/// A 0x62 or 0x6D subcommand waits while someone bursts, unless it is an
/// uninterpreted one with command byte 0x6B to 0x71.
pub open spec fn held_back_directed(kind: SubCmdKind) -> bool {
    !(kind matches SubCmdKind::Unknown(cmd) && 0x6B <= cmd <= 0x71)
}

/// The experience award that a subcommand asks for, made to `current`.
pub open spec fn exp_part<M>(current: usize, kind: SubCmdKind) -> Seq<ActionView<M>> {
    match kind {
        SubCmdKind::ReqExp { enemy_id, last_hitter } => seq![ActionView::AwardExp(current, enemy_id, last_hitter)],
        _ => Seq::empty(),
    }
}

/// The actions for a command from `sender` when no one is bursting;
/// `current` is the connection being served, which is awarded the
/// experience a command asks for.
pub open spec fn dispatch<M>(members: Seq<Option<usize>>, current: usize, sender: usize, cmd: Queued<M>) -> Seq<ActionView<M>> {
    match cmd {
        Queued::Cmd60(m) => exp_part(current, m.kind) + seq![ActionView::Broadcast(recipients(members, Some(sender)), cmd)],
        Queued::Cmd6C(m) => exp_part(current, m.kind) + seq![ActionView::Broadcast(recipients(members, Some(sender)), cmd)],
        Queued::Cmd62(dest, m) => match members[dest as int] {
            Some(c) => seq![ActionView::Send(c, cmd)],
            None => Seq::empty(),
        },
        Queued::Cmd6D(dest, m) => if dest < members.len() && members[dest as int] is Some {
            seq![ActionView::Send(members[dest as int]->0, cmd)]
        } else {
            Seq::empty()
        },
    }
}

/// A command can be carried out: a 0x62 names one of the four slots.
pub open spec fn dispatchable<M>(cmd: Queued<M>) -> bool {
    cmd matches Queued::Cmd62(dest, _) ==> dest < 4
}

/// Every held-back command can be carried out.
pub open spec fn queue_dispatchable<M>(q: Seq<(usize, Queued<M>)>) -> bool {
    forall|k: int| 0 <= k < q.len() ==> dispatchable(#[trigger] q[k].1)
}

/// The actions for the held-back commands, in order.
pub open spec fn drain<M>(members: Seq<Option<usize>>, current: usize, q: Seq<(usize, Queued<M>)>) -> Seq<ActionView<M>>
    decreases q.len(),
{
    if q.len() == 0 {
        Seq::empty()
    } else {
        dispatch(members, current, q[0].0, q[0].1) + drain(members, current, q.drop_first())
    }
}

/// The announcement of an experience award: every member is told that
/// the player in `slot` gained `exp`, and of their new stats and level
/// when they leveled up.
pub struct ExpNotice {
    pub slot: u8,
    pub to: Vec<usize>,
    pub exp: u32,
    pub level_up: Option<(self::exp::Stats, u32)>,
}

/// A party.
pub struct Party<M> {
    pub name: String,
    pub password: Option<String>,
    pub episode: u8,
    pub difficulty: u8,
    pub battle: bool,
    pub challenge: bool,
    pub single_player: bool,
    pub unique_id: u32,
    pub section_id: Option<u8>,
    pub members: [Option<usize>; 4],
    pub bursting: [bool; 4],
    pub leader_id: u8,
    pub variants: Vec<u32>,
    pub enemies: Vec<InstanceEnemy>,
    pub bc_queue: VecDeque<(usize, Queued<M>)>,
}

impl<M> Party<M> {
    /// The player slots.
    pub open spec fn members(&self) -> Seq<Option<usize>> {
        self.members@
    }

    /// Which slots are bursting.
    pub open spec fn bursting(&self) -> Seq<bool> {
        self.bursting@
    }

    /// The leader's slot.
    pub open spec fn leader(&self) -> u8 {
        self.leader_id
    }

    /// The section ID of the party, set by its first joiner.
    pub open spec fn section(&self) -> Option<u8> {
        self.section_id
    }

    /// The variant number of each area.
    pub open spec fn variant_list(&self) -> Seq<u32> {
        self.variants@
    }

    /// The party's enemies.
    pub open spec fn enemy_list(&self) -> Seq<EnemyDesc> {
        descs(self.enemies@)
    }

    /// The commands held back while someone bursts, with their senders, in
    /// arrival order.
    pub open spec fn queue(&self) -> Seq<(usize, Queued<M>)> {
        self.bc_queue@
    }

    /// The party's invariant: four slots; a non-empty party's leader slot
    /// holds a player; only occupied slots burst.
    pub open spec fn wf(&self) -> bool {
        &&& self.members@.len() == 4
        &&& self.bursting@.len() == 4
        &&& self.leader_id < 4
        &&& occupied(self.members@) > 0 ==> self.members@[self.leader_id as int] is Some
        &&& forall|i: int| 0 <= i < 4 ==> #[trigger] self.bursting@[i] ==> self.members@[i] is Some
    }

    /// Some slot is bursting.
    pub open spec fn spec_is_bursting(&self) -> bool {
        exists|i: int| 0 <= i < self.bursting().len() && #[trigger] self.bursting()[i]
    }

    /// The parts of a party that membership changes leave alone.
    pub open spec fn same_setup(&self, other: &Party<M>) -> bool {
        &&& self.name == other.name
        &&& self.password == other.password
        &&& self.episode == other.episode
        &&& self.difficulty == other.difficulty
        &&& self.battle == other.battle
        &&& self.challenge == other.challenge
        &&& self.single_player == other.single_player
        &&& self.unique_id == other.unique_id
        &&& self.variants@ == other.variants@
        &&& self.enemies@ == other.enemies@
    }

    /// The slot of `client` if they are in the party and bursting.
    pub open spec fn burst_slot(&self, client: usize) -> Option<int> {
        match slot_of(self.members(), client) {
            Some(i) => if self.bursting()[i] { Some(i) } else { None },
            None => None,
        }
    }

    /// No slot but `i` is bursting.
    pub open spec fn only_burster(&self, i: int) -> bool {
        forall|j: int| 0 <= j < 4 && j != i ==> !#[trigger] self.bursting()[j]
    }

    /// The slot a player joining now takes.
    pub open spec fn join_slot(&self) -> Option<int> {
        first_empty(self.members())
    }

    /// The leader after `player`, in slot `i`, leaves.
    pub open spec fn leader_after_leave(&self, player: usize, i: int) -> u8 {
        if self.leader() as int == i {
            match first_other(self.members(), player) {
                Some(j) => j as u8,
                None => self.leader(),
            }
        } else {
            self.leader()
        }
    }

    /// This party is a new one made with these settings, its areas laid out
    /// with random variations of `maps`: empty, no section ID yet, nothing
    /// held back.
    pub open spec fn created_as(
        &self,
        name: Seq<char>,
        password: Option<Seq<char>>,
        episode: u8,
        difficulty: u8,
        battle: bool,
        challenge: bool,
        single_player: bool,
        event: u16,
        maps: Areas,
        unique_id: u32,
    ) -> bool {
        &&& self.wf()
        &&& self.name@ == name
        &&& (match self.password {
            Some(t) => password == Some(t@),
            None => password is None,
        })
        &&& self.episode == episode
        &&& self.difficulty == difficulty
        &&& self.battle == battle
        &&& self.challenge == challenge
        &&& self.single_player == single_player
        &&& self.unique_id == unique_id
        &&& self.section() is None
        &&& self.members() == seq![None::<usize>, None, None, None]
        &&& self.bursting() == seq![false, false, false, false]
        &&& self.leader() == 0
        &&& self.queue().len() == 0
        &&& episode == 1 ==> exists|rolls: Seq<usize>|
            #![trigger ep1_variants(maps.ep1, rolls)]
            rolls.len() >= 10 && self.variant_list() == ep1_variants(maps.ep1, rolls) && self.enemy_list() == (if difficulty == 0 {
                ep1_enemies(maps.ep1, event, rolls)
            } else {
                raise_falz(ep1_enemies(maps.ep1, event, rolls))
            })
        &&& episode == 2 ==> exists|rolls: Seq<usize>|
            #![trigger ep2_variants(maps.ep2, rolls)]
            rolls.len() >= 11 && self.variant_list() == ep2_variants(maps.ep2, rolls) && self.enemy_list() == ep2_enemies(
                maps.ep2,
                event,
                rolls,
            )
        &&& episode == 3 ==> exists|rolls: Seq<usize>|
            #![trigger ep4_variants(maps.ep4, rolls)]
            rolls.len() >= 8 && self.variant_list() == ep4_variants(maps.ep4, rolls) && self.enemy_list() == ep4_enemies(
                maps.ep4,
                event,
                rolls,
            )
    }

    /// `after` is this party once `player` joined it, and `plan` tells
    /// of the join: the player takes the first free slot, bursting, and
    /// leads the party if it was empty; the first joiner sets the section
    /// ID (`chara_section`), and the plan carries the stored section ID, or
    /// `char_section` for the first joiner.
    pub open spec fn joined_as(
        &self,
        after: &Party<M>,
        player: usize,
        chara_section: u8,
        char_section: u8,
        plan: JoinPlan,
    ) -> bool {
        self.join_slot() matches Some(i) && {
            &&& after.wf()
            &&& after.members() == self.members().update(i, Some(player))
            &&& after.bursting() == self.bursting().update(i, true)
            &&& after.leader() == (if occupied(self.members()) == 0 { i as u8 } else { self.leader() })
            &&& after.section() == (if self.section() is Some { self.section() } else { Some(chara_section) })
            &&& after.queue() == self.queue()
            &&& after.same_setup(self)
            &&& plan.client_id == i
            &&& plan.leader_id == after.leader()
            &&& plan.section == (match self.section() { Some(s) => s, None => char_section })
            &&& plan.single_player == (if self.single_player { 1u8 } else { 0u8 })
            &&& plan.difficulty == self.difficulty
            &&& plan.episode == self.episode
            &&& plan.maps@ == self.variant_list()
            &&& plan.players@ == after.members()
            &&& plan.count == occupied(after.members())
            &&& plan.add_member_to@ == occupants_except(after.members(), player)
        }
    }

    /// `after` is this party once `player`, who is in it, left, and `plan`
    /// tells the others: when the leader leaves, the member in the lowest
    /// other slot leads; when no one else is there, the party is to be
    /// destroyed.
    pub open spec fn left_as(&self, after: &Party<M>, player: usize, plan: LeavePlan) -> bool {
        slot_of(self.members(), player) matches Some(i) && {
            &&& plan.destroy == (self.leader() as int == i && first_other(self.members(), player) is None)
            &&& !plan.destroy ==> after.wf()
            &&& after.members() == self.members().update(i, None)
            &&& after.bursting() == self.bursting().update(i, false)
            &&& after.leader() == self.leader_after_leave(player, i)
            &&& after.section() == self.section()
            &&& after.queue() == self.queue()
            &&& after.same_setup(self)
            &&& plan.client_id == i
            &&& plan.leader_id == after.leader()
            &&& plan.notify@ == recipients(after.members(), Some(player))
        }
    }

    /// A command is held back: someone bursts, and the command is one that
    /// waits (see [`held_back_broadcast`] and [`held_back_directed`]).
    pub open spec fn held_back(&self, cmd: Queued<M>) -> bool {
        &&& self.spec_is_bursting()
        &&& match cmd {
            Queued::Cmd60(m) => held_back_broadcast(m.kind),
            Queued::Cmd6C(m) => held_back_broadcast(m.kind),
            Queued::Cmd62(_, m) => held_back_directed(m.kind),
            Queued::Cmd6D(_, m) => held_back_directed(m.kind),
        }
    }

    /// `after` is this party once a command from `sender`, served on
    /// connection `current`, was handled with the actions `acts`: a command
    /// held back joins the queue, any other is carried out now.
    pub open spec fn handled_as(
        &self,
        after: &Party<M>,
        current: usize,
        sender: usize,
        cmd: Queued<M>,
        acts: Seq<PartyAction<M>>,
    ) -> bool {
        &&& after.wf()
        &&& after.members() == self.members()
        &&& after.bursting() == self.bursting()
        &&& after.leader() == self.leader()
        &&& after.section() == self.section()
        &&& after.same_setup(self)
        &&& self.held_back(cmd) ==> acts.len() == 0 && after.queue() == self.queue().push((sender, cmd))
        &&& !self.held_back(cmd) ==> after.queue() == self.queue() && action_views(acts) == dispatch(
            self.members(),
            current,
            sender,
            cmd,
        )
    }

    /// `after` is this party once `client`, who was bursting, finished, and
    /// `d` tells what follows: the held-back commands are carried out in
    /// arrival order, served on `client`'s connection.
    pub open spec fn burst_done_as(&self, after: &Party<M>, client: usize, d: BurstDone<M>) -> bool {
        self.burst_slot(client) matches Some(i) && {
            &&& after.wf()
            &&& d.ping_to == client
            &&& d.done_to@ == recipients(self.members(), None)
            &&& action_views(d.actions@) == drain(self.members(), client, self.queue())
            &&& after.queue().len() == 0
            &&& after.bursting() == self.bursting().update(i, false)
            &&& !after.spec_is_bursting()
            &&& after.members() == self.members()
            &&& after.leader() == self.leader()
            &&& after.section() == self.section()
            &&& after.same_setup(self)
        }
    }

    /// The connections a broadcast from `sent_by` reaches: every member but
    /// `sent_by`, in slot order.
    pub fn bb_broadcast(&self, sent_by: Option<usize>) -> (r: Vec<usize>)
        ensures
            r@ == recipients(self.members(), sent_by),
    {
        broadcast_targets(&self.members, sent_by)
    }

    /// The number of players.
    pub fn num_players(&self) -> (r: usize)
        ensures
            r == occupied(self.members()),
    {
        count_occupied(&self.members)
    }

    /// Whether the player is in this party.
    pub fn has_player(&self, player: usize) -> (r: bool)
        ensures
            r == holds(self.members(), player),
    {
        let found = find_slot(&self.members, player);
        proof {
            lemma_slot_of(self.members(), player, 0);
        }
        found.is_some()
    }

    /// Whether every slot is taken.
    pub fn is_full(&self) -> (r: bool)
        ensures
            r == (occupied(self.members()) >= 4),
    {
        self.num_players() >= 4
    }

    /// Whether no slot is taken.
    pub fn is_empty(&self) -> (r: bool)
        ensures
            r == (occupied(self.members()) == 0),
    {
        self.num_players() == 0
    }

    /// Whether any player is bursting.
    pub fn is_bursting(&self) -> (r: bool)
        requires
            self.wf(),
        ensures
            r == self.spec_is_bursting(),
    {
        let mut i: usize = 0;
        while i < 4
            invariant
                i <= 4,
                self.wf(),
                forall|j: int| 0 <= j < i ==> !self.bursting()[j],
            decreases 4 - i,
        {
            if self.bursting[i] {
                assert(self.bursting()[i as int]);
                return true;
            }
            i = i + 1;
        }
        false
    }

    /// The player limit: 1 for a single-player party, else 4.
    pub fn player_limit(&self) -> (r: usize)
        ensures
            r == if self.single_player { 1usize } else { 4usize },
    {
        if self.single_player {
            1
        } else {
            4
        }
    }

    /// The slot of the player, if they are in the party.
    fn client_id_for_player(&self, player: usize) -> (r: Option<u8>)
        requires
            self.wf(),
        ensures
            r matches Some(i) ==> slot_of(self.members(), player) == Some(i as int),
            r is None ==> slot_of(self.members(), player) is None,
    {
        match find_slot(&self.members, player) {
            Some(i) => {
                proof {
                    lemma_slot_of(self.members(), player, 0);
                }
                Some(i as u8)
            },
            None => None,
        }
    }

    /// Adds a player to the first free slot. The first joiner leads the
    /// party and sets its section ID (`chara_section`); the plan carries the
    /// stored section ID, or `char_section` for the first joiner. The new
    /// player is bursting until they report that they finished loading.
    pub fn add_player(&mut self, player: usize, chara_section: u8, char_section: u8) -> (r: Result<JoinPlan, PartyError>)
        requires
            old(self).wf(),
        ensures
            final(self).wf(),
            old(self).join_slot() is None ==> r == Err::<JoinPlan, PartyError>(PartyError::IsFull) && *final(self) == *old(self),
            old(self).join_slot() is Some ==> (r matches Ok(plan) && old(self).joined_as(
                final(self),
                player,
                chara_section,
                char_section,
                plan,
            )),
    {
        let slot = match find_first_empty(&self.members) {
            Some(s) => s,
            None => return Err(PartyError::IsFull),
        };
        proof {
            lemma_first_empty(self.members(), 0);
        }
        if self.num_players() == 0 {
            self.leader_id = slot as u8;
        }
        self.members.set(slot, Some(player));
        let section = match self.section_id {
            Some(sid) => sid,
            None => {
                self.section_id = Some(chara_section);
                char_section
            },
        };
        let mut players: Vec<Option<usize>> = Vec::new();
        let mut i: usize = 0;
        while i < 4
            invariant
                i <= 4,
                self.members@.len() == 4,
                players@ == self.members@.take(i as int),
            decreases 4 - i,
        {
            players.push(self.members[i]);
            proof {
                assert(self.members@.take(i + 1) =~= self.members@.take(i as int).push(self.members@[i as int]));
            }
            i = i + 1;
        }
        assert(self.members@.take(4) =~= self.members@);
        let count = self.num_players();
        proof {
            crate::block::slots::lemma_count_bound(self.members@, 0);
        }
        let plan = JoinPlan {
            client_id: slot as u8,
            leader_id: self.leader_id,
            section,
            single_player: if self.single_player { 1 } else { 0 },
            difficulty: self.difficulty,
            episode: self.episode,
            maps: self.variants.clone(),
            players,
            count: count as u32,
            add_member_to: occupant_list_except(&self.members, player),
        };
        self.bursting.set(slot, true);
        Ok(plan)
    }

    /// Removes a player. When the leader leaves, the member in the lowest
    /// other slot leads; when no one else is there, the party is to be
    /// destroyed. The remaining members are told.
    pub fn remove_player(&mut self, player: usize) -> (r: Result<LeavePlan, PartyError>)
        requires
            old(self).wf(),
        ensures
            slot_of(old(self).members(), player) is None ==> r == Err::<LeavePlan, PartyError>(PartyError::NotInParty)
                && *final(self) == *old(self),
            slot_of(old(self).members(), player) is Some ==> (r matches Ok(plan) && old(self).left_as(
                final(self),
                player,
                plan,
            )),
    {
        let i = match self.client_id_for_player(player) {
            Some(i) => i,
            None => return Err(PartyError::NotInParty),
        };
        proof {
            lemma_slot_of(self.members(), player, 0);
            lemma_first_other(self.members(), player, 0);
        }
        proof {
            crate::block::slots::lemma_count_pos(self.members(), 0, i as int);
        }
        let mut destroy = false;
        if self.leader_id == i {
            match find_first_other(&self.members, player) {
                Some((ii, _)) => {
                    self.leader_id = ii as u8;
                },
                None => {
                    destroy = true;
                },
            }
        }
        self.members.set(i as usize, None);
        self.bursting.set(i as usize, false);
        let notify = broadcast_targets(&self.members, Some(player));
        proof {
            if !destroy {
                assert(self.members@[self.leader_id as int] is Some);
            }
        }
        Ok(LeavePlan { destroy, client_id: i, leader_id: self.leader_id, notify })
    }

    /// Carries out a command from `sender` now.
    fn dispatch_cmd(&self, current: usize, sender: usize, cmd: Queued<M>) -> (r: Vec<PartyAction<M>>)
        requires
            self.wf(),
            dispatchable(cmd),
        ensures
            action_views(r@) == dispatch(self.members(), current, sender, cmd),
    {
        let mut acts: Vec<PartyAction<M>> = Vec::new();
        match cmd {
            Queued::Cmd60(m) => {
                if let SubCmdKind::ReqExp { enemy_id, last_hitter } = m.kind {
                    acts.push(PartyAction::AwardExp { client: current, enemy_id, last_hitter });
                }
                let to = self.bb_broadcast(Some(sender));
                acts.push(PartyAction::Broadcast { to, cmd: Queued::Cmd60(m) });
            },
            Queued::Cmd6C(m) => {
                if let SubCmdKind::ReqExp { enemy_id, last_hitter } = m.kind {
                    acts.push(PartyAction::AwardExp { client: current, enemy_id, last_hitter });
                }
                let to = self.bb_broadcast(Some(sender));
                acts.push(PartyAction::Broadcast { to, cmd: Queued::Cmd6C(m) });
            },
            Queued::Cmd62(dest, m) => {
                if let Some(dest_cid) = self.members[dest as usize] {
                    acts.push(PartyAction::Send { to: dest_cid, cmd: Queued::Cmd62(dest, m) });
                }
            },
            Queued::Cmd6D(dest, m) => {
                if dest < 4 {
                    if let Some(dest_cid) = self.members[dest as usize] {
                        acts.push(PartyAction::Send { to: dest_cid, cmd: Queued::Cmd6D(dest, m) });
                    }
                }
            },
        }
        assert(action_views(acts@) =~= dispatch(self.members(), current, sender, cmd));
        acts
    }

    /// Handles a 0x60 subcommand from `sender`, served on connection
    /// `current`: held back while someone bursts (see
    /// [`held_back_broadcast`]), else relayed to every other member, after
    /// an experience award it asks for.
    pub fn handle_bb_subcmd_60(&mut self, current: usize, sender: usize, m: SubCmd<M>) -> (r: Vec<PartyAction<M>>)
        requires
            old(self).wf(),
        ensures
            old(self).handled_as(final(self), current, sender, Queued::Cmd60(m), r@),
    {
        let hold = match m.kind {
            SubCmdKind::Unknown(cmd) => cmd != 0x7C,
            _ => false,
        };
        if hold && self.is_bursting() {
            self.bc_queue.push_back((sender, Queued::Cmd60(m)));
            return Vec::new();
        }
        self.dispatch_cmd(current, sender, Queued::Cmd60(m))
    }

    /// Handles a 0x6C subcommand like a 0x60 one.
    pub fn handle_bb_subcmd_6c(&mut self, current: usize, sender: usize, m: SubCmd<M>) -> (r: Vec<PartyAction<M>>)
        requires
            old(self).wf(),
        ensures
            old(self).handled_as(final(self), current, sender, Queued::Cmd6C(m), r@),
    {
        let hold = match m.kind {
            SubCmdKind::Unknown(cmd) => cmd != 0x7C,
            _ => false,
        };
        if hold && self.is_bursting() {
            self.bc_queue.push_back((sender, Queued::Cmd6C(m)));
            return Vec::new();
        }
        self.dispatch_cmd(current, sender, Queued::Cmd6C(m))
    }

    /// Handles a 0x62 subcommand from `sender` for the member in slot
    /// `dest`: held back while someone bursts (see [`held_back_directed`]),
    /// else sent to that member if the slot is taken.
    pub fn handle_bb_subcmd_62(&mut self, current: usize, sender: usize, dest: u32, m: SubCmd<M>) -> (r: Vec<PartyAction<M>>)
        requires
            old(self).wf(),
            !(old(self).spec_is_bursting() && held_back_directed(m.kind)) ==> dest < 4,
        ensures
            old(self).handled_as(final(self), current, sender, Queued::Cmd62(dest, m), r@),
    {
        let pass = match m.kind {
            SubCmdKind::Unknown(cmd) => 0x6B <= cmd && cmd <= 0x71,
            _ => false,
        };
        if !pass && self.is_bursting() {
            self.bc_queue.push_back((sender, Queued::Cmd62(dest, m)));
            return Vec::new();
        }
        self.dispatch_cmd(current, sender, Queued::Cmd62(dest, m))
    }

    /// Handles a 0x6D subcommand like a 0x62 one; a `dest` that names no
    /// slot is ignored.
    pub fn handle_bb_subcmd_6d(&mut self, current: usize, sender: usize, dest: u32, m: SubCmd<M>) -> (r: Vec<PartyAction<M>>)
        requires
            old(self).wf(),
        ensures
            old(self).handled_as(final(self), current, sender, Queued::Cmd6D(dest, m), r@),
    {
        let pass = match m.kind {
            SubCmdKind::Unknown(cmd) => 0x6B <= cmd && cmd <= 0x71,
            _ => false,
        };
        if !pass && self.is_bursting() {
            self.bc_queue.push_back((sender, Queued::Cmd6D(dest, m)));
            return Vec::new();
        }
        self.dispatch_cmd(current, sender, Queued::Cmd6D(dest, m))
    }

    /// Handles `client` finishing their burst: they are pinged, their burst
    /// ends, every member is told, and the held-back commands are carried
    /// out in arrival order, served on `client`'s connection. Only one
    /// player bursts at a time.
    pub fn handle_bb_done_burst(&mut self, client: usize) -> (r: Result<BurstDone<M>, PartyError>)
        requires
            old(self).wf(),
            old(self).burst_slot(client) matches Some(i) ==> old(self).only_burster(i),
            queue_dispatchable(old(self).queue()),
        ensures
            final(self).wf(),
            slot_of(old(self).members(), client) is None ==> r == Err::<BurstDone<M>, PartyError>(PartyError::NotInParty)
                && *final(self) == *old(self),
            slot_of(old(self).members(), client) is Some && old(self).burst_slot(client) is None ==> r == Err::<
                BurstDone<M>,
                PartyError,
            >(PartyError::NotBursting) && *final(self) == *old(self),
            old(self).burst_slot(client) is Some ==> (r matches Ok(d) && old(self).burst_done_as(final(self), client, d)),
    {
        let slot = match self.client_id_for_player(client) {
            Some(s) => s,
            None => return Err(PartyError::NotInParty),
        };
        proof {
            lemma_slot_of(self.members(), client, 0);
        }
        if !self.bursting[slot as usize] {
            return Err(PartyError::NotBursting);
        }
        self.bursting.set(slot as usize, false);
        let done_to = self.bb_broadcast(None);
        assert(forall|j: int| 0 <= j < 4 ==> !self.bursting@[j]);
        let ghost q0 = self.bc_queue@;
        let ghost pre = *self;
        let mut actions: Vec<PartyAction<M>> = Vec::new();
        assert(action_views(actions@) + drain(self.members(), client, q0) =~= drain(self.members(), client, q0));
        loop
            invariant
                self.wf(),
                forall|j: int| 0 <= j < 4 ==> !self.bursting@[j],
                queue_dispatchable(self.queue()),
                self.members@ == pre.members@,
                self.bursting@ == pre.bursting@,
                self.leader_id == pre.leader_id,
                self.section_id == pre.section_id,
                self.same_setup(&pre),
                action_views(actions@) + drain(self.members(), client, self.bc_queue@) == drain(self.members(), client, q0),
            ensures
                self.bc_queue@.len() == 0,
                self.wf(),
                forall|j: int| 0 <= j < 4 ==> !self.bursting@[j],
                self.members@ == pre.members@,
                self.bursting@ == pre.bursting@,
                self.leader_id == pre.leader_id,
                self.section_id == pre.section_id,
                self.same_setup(&pre),
                action_views(actions@) == drain(self.members(), client, q0),
            decreases self.bc_queue@.len(),
        {
            let ghost before = self.bc_queue@;
            match self.bc_queue.pop_front() {
                Some((sender, cmd)) => {
                    assert(dispatchable(before[0].1));
                    assert(queue_dispatchable(self.queue())) by {
                        assert forall|k: int| 0 <= k < self.queue().len() implies dispatchable(#[trigger] self.queue()[k].1) by {
                            assert(self.queue()[k] == before[k + 1]);
                        }
                    }
                    let ghost before_acts = actions@;
                    let mut more = self.dispatch_cmd(client, sender, cmd);
                    actions.append(&mut more);
                    proof {
                        assert(self.bc_queue@ =~= before.drop_first());
                        assert(action_views(actions@) =~= action_views(before_acts) + dispatch(self.members(), client, sender, cmd));
                    }
                },
                None => {
                    assert(drain(self.members(), client, self.bc_queue@) =~= Seq::<ActionView<M>>::empty());
                    assert(action_views(actions@) + drain(self.members(), client, self.bc_queue@) =~= action_views(actions@));
                    break;
                },
            }
        }
        assert(!self.spec_is_bursting());
        Ok(BurstDone { ping_to: client, done_to, actions })
    }

    /// The battle parameter entry of enemy `enemy_id`, for an experience
    /// request; `None` when the party has no such enemy.
    pub fn exp_param_entry(&self, enemy_id: u16) -> (r: Option<usize>)
        ensures
            enemy_id < self.enemy_list().len() ==> r == Some(self.enemy_list()[enemy_id as int].0 as usize),
            enemy_id >= self.enemy_list().len() ==> r is None,
    {
        if (enemy_id as usize) < self.enemies.len() {
            Some(self.enemies[enemy_id as usize].param_entry)
        } else {
            None
        }
    }

    /// `n` announces `award` of `client`, a member, to every member.
    pub open spec fn announces(&self, client: usize, award: ExpAward, n: ExpNotice) -> bool {
        &&& slot_of(self.members(), client) == Some(n.slot as int)
        &&& n.to@ == recipients(self.members(), None)
        &&& n.exp == award.exp
        &&& award.leveled_up ==> n.level_up == Some((award.stats, award.level))
        &&& !award.leveled_up ==> n.level_up is None
    }

    /// Handles a member's request for experience for a hit on an enemy
    /// whose battle parameters give `bp_exp` experience (`None` when the
    /// party has no such enemy or there is no such parameter entry): the
    /// member's character `chara` gains the experience the hit earns (see
    /// [`exp_for_hit`]), and the award is announced.
    pub fn handle_bb_60_req_exp(
        &self,
        client: usize,
        chara: &mut CharProgress,
        table: &LevelTable,
        bp_exp: Option<u32>,
        last_hitter: u8,
    ) -> (r: Option<ExpNotice>)
        requires
            self.wf(),
            holds(self.members(), client),
            bp_exp matches Some(bp) ==> (last_hitter != 1 ==> bp * 80 <= u32::MAX) && award_defined(
                *old(chara),
                table_view(*table),
                hit_exp(bp, last_hitter),
            ),
        ensures
            bp_exp is None ==> r is None && *final(chara) == *old(chara),
            bp_exp matches Some(bp) ==> exists|a: Option<ExpAward>|
                #![trigger awarded(*old(chara), *final(chara), table_view(*table), hit_exp(bp, last_hitter), a)]
                awarded(*old(chara), *final(chara), table_view(*table), hit_exp(bp, last_hitter), a) && match a {
                    None => r is None,
                    Some(aw) => r matches Some(n) && self.announces(client, aw, n),
                },
    {
        let bp = match bp_exp {
            Some(bp) => bp,
            None => return None,
        };
        let exp = exp_for_hit(bp, last_hitter);
        let a = award_exp(chara, table, exp);
        match a {
            Some(aw) => Some(self.exp_notice(client, &aw)),
            None => None,
        }
    }

    /// The announcement of `award` to `client`, a member.
    pub fn exp_notice(&self, client: usize, award: &ExpAward) -> (r: ExpNotice)
        requires
            self.wf(),
            holds(self.members(), client),
        ensures
            slot_of(self.members(), client) == Some(r.slot as int),
            r.to@ == recipients(self.members(), None),
            r.exp == award.exp,
            award.leveled_up ==> r.level_up == Some((award.stats, award.level)),
            !award.leveled_up ==> r.level_up is None,
    {
        proof {
            lemma_slot_of(self.members(), client, 0);
        }
        let slot = match self.client_id_for_player(client) {
            Some(s) => s,
            None => 0,
        };
        ExpNotice {
            slot,
            to: self.bb_broadcast(None),
            exp: award.exp,
            level_up: if award.leveled_up { Some((award.stats, award.level)) } else { None },
        }
    }

    /// The party's name, which a member asking for it is sent.
    pub fn handle_bb_game_name(&self) -> (r: String)
        ensures
            r@ == self.name@,
    {
        self.name.clone()
    }

    /// Creates a party of the given episode (1, 2, or 3 for Episode 4),
    /// laying out its areas with random variations of `maps`. From Hard
    /// (difficulty 1) on, Dark Falz's second phase in Episode 1 takes the
    /// parameter entry of his third.
    pub fn new(
        name: &str,
        password: Option<&str>,
        episode: u8,
        difficulty: u8,
        battle: bool,
        challenge: bool,
        single_player: bool,
        event: u16,
        maps: &Areas,
        unique_id: u32,
    ) -> (p: Party<M>)
        requires
            episode == 1 ==> ep1_ready(maps.ep1),
            episode == 2 ==> ep2_ready(maps.ep2),
            episode == 3 ==> ep4_ready(maps.ep4),
            episode == 1 || episode == 2 || episode == 3,
        ensures
            p.created_as(
                name@,
                match password {
                    Some(s) => Some(s@),
                    None => None,
                },
                episode,
                difficulty,
                battle,
                challenge,
                single_player,
                event,
                *maps,
                unique_id,
            ),
    {
        let n: usize = if episode == 1 { 10 } else if episode == 2 { 11 } else { 8 };
        let mut rolls: Vec<usize> = Vec::new();
        let mut i: usize = 0;
        while i < n
            invariant
                i <= n,
                rolls@.len() == i,
            decreases n - i,
        {
            rolls.push(random_usize());
            i = i + 1;
        }
        let (variants, enemies) = if episode == 1 {
            random_variants_ep1(&maps.ep1, event, difficulty == 0, rolls.as_slice())
        } else if episode == 2 {
            random_variants_ep2(&maps.ep2, event, rolls.as_slice())
        } else {
            random_variants_ep4(&maps.ep4, event, rolls.as_slice())
        };
        let password = match password {
            Some(s) => Some(s.to_owned()),
            None => None,
        };
        let p = Party {
            name: name.to_owned(),
            password,
            episode,
            difficulty,
            battle,
            challenge,
            single_player,
            unique_id,
            section_id: None,
            members: [None, None, None, None],
            bursting: [false, false, false, false],
            leader_id: 0,
            variants,
            enemies,
            bc_queue: VecDeque::new(),
        };
        proof {
            assert(p.members@ =~= seq![None::<usize>, None, None, None]);
            assert(p.bursting@ =~= seq![false, false, false, false]);
            assert(occupied(p.members@) == 0) by {
                reveal_with_fuel(count_from, 5);
            }
            if episode == 1 {
                assert(ep1_variants(maps.ep1, rolls@) == p.variant_list());
            } else if episode == 2 {
                assert(ep2_variants(maps.ep2, rolls@) == p.variant_list());
            } else {
                assert(ep4_variants(maps.ep4, rolls@) == p.variant_list());
            }
        }
        p
    }
}

/// Joining a party puts the player in the first free slot, bursting, and
/// adds one to its count.
pub proof fn law_party_join(m: Seq<Option<usize>>, player: usize)
    requires
        m.len() == 4,
        first_empty(m) is Some,
    ensures
        holds(m.update(first_empty(m)->0, Some(player)), player),
        occupied(m.update(first_empty(m)->0, Some(player))) == occupied(m) + 1,
{
    lemma_first_empty(m, 0);
    let i = first_empty(m)->0;
    lemma_count_fill(m, 0, i, player);
    assert(m.update(i, Some(player))[i] == Some(player));
}

/// A player not in a party who joins and then leaves again leaves the
/// party's slots and burst flags as they were.
pub proof fn law_party_leave_undoes_join(m: Seq<Option<usize>>, b: Seq<bool>, player: usize)
    requires
        m.len() == 4,
        b.len() == 4,
        forall|i: int| 0 <= i < 4 ==> #[trigger] b[i] ==> m[i] is Some,
        !holds(m, player),
        first_empty(m) is Some,
    ensures
        ({
            let i = first_empty(m)->0;
            let m1 = m.update(i, Some(player));
            let b1 = b.update(i, true);
            &&& slot_of(m1, player) == Some(i)
            &&& m1.update(i, None) == m
            &&& b1.update(i, false) == b
        }),
{
    lemma_first_empty(m, 0);
    let i = first_empty(m)->0;
    let m1 = m.update(i, Some(player));
    assert forall|j: int| 0 <= j < i implies m1[j] != Some(player) by {
        assert(m[j] != Some(player));
    }
    lemma_slot_of_at(m1, player, 0, i);
    assert(m1.update(i, None) =~= m);
    assert(!b[i]);
    assert(b.update(i, true).update(i, false) =~= b);
}

/// Commands held back while a player bursts are carried out in the order
/// they arrived: one held back later is carried out after all held back
/// before it.
pub proof fn law_held_back_in_order<M>(
    members: Seq<Option<usize>>,
    current: usize,
    q: Seq<(usize, Queued<M>)>,
    x: (usize, Queued<M>),
)
    ensures
        drain(members, current, q.push(x)) == drain(members, current, q) + dispatch(members, current, x.0, x.1),
    decreases q.len(),
{
    if q.len() == 0 {
        assert(q.push(x).drop_first() =~= Seq::<(usize, Queued<M>)>::empty());
        assert(q.push(x)[0] == x);
        assert(drain(members, current, q.push(x).drop_first()) =~= Seq::<ActionView<M>>::empty());
        assert(drain(members, current, q) =~= Seq::<ActionView<M>>::empty());
        assert(drain(members, current, q.push(x)) =~= drain(members, current, q) + dispatch(members, current, x.0, x.1));
    } else {
        law_held_back_in_order(members, current, q.drop_first(), x);
        assert(q.push(x).drop_first() =~= q.drop_first().push(x));
        assert(q.push(x)[0] == q[0]);
        assert(drain(members, current, q.push(x)) =~= drain(members, current, q) + dispatch(members, current, x.0, x.1));
    }
}

/// A 0x62 subcommand for slot `dest`: while a member bursts it is held
/// back (queued, nothing sent) unless it is an uninterpreted one with
/// command byte 0x6B to 0x71; such a one, and every one while no one
/// bursts, goes straight to the member in slot `dest`, or to no one when
/// the slot is empty.
pub proof fn law_directed_subcommand_relay<M>(
    p: Party<M>,
    after: Party<M>,
    current: usize,
    sender: usize,
    dest: u32,
    m: SubCmd<M>,
    acts: Seq<PartyAction<M>>,
)
    requires
        p.handled_as(&after, current, sender, Queued::Cmd62(dest, m), acts),
    ensures
        ({
            let passes = m.kind matches SubCmdKind::Unknown(c) && 0x6B <= c <= 0x71;
            &&& p.spec_is_bursting() && !passes ==> acts.len() == 0 && after.queue() == p.queue().push(
                (sender, Queued::Cmd62(dest, m)),
            )
            &&& !p.spec_is_bursting() || passes ==> after.queue() == p.queue() && (match p.members()[dest as int] {
                Some(c) => action_views(acts) == seq![ActionView::Send(c, Queued::Cmd62(dest, m))],
                None => acts.len() == 0,
            })
        }),
{
    assert(action_views(acts).len() == acts.len());
}

/// A 0x6D subcommand for slot `dest` is held back and relayed as a 0x62
/// one is; one for a slot that does not exist or is empty goes to no one.
pub proof fn law_directed_subcommand_relay_6d<M>(
    p: Party<M>,
    after: Party<M>,
    current: usize,
    sender: usize,
    dest: u32,
    m: SubCmd<M>,
    acts: Seq<PartyAction<M>>,
)
    requires
        p.wf(),
        p.handled_as(&after, current, sender, Queued::Cmd6D(dest, m), acts),
    ensures
        ({
            let passes = m.kind matches SubCmdKind::Unknown(c) && 0x6B <= c <= 0x71;
            &&& p.spec_is_bursting() && !passes ==> acts.len() == 0 && after.queue() == p.queue().push(
                (sender, Queued::Cmd6D(dest, m)),
            )
            &&& !p.spec_is_bursting() || passes ==> after.queue() == p.queue() && (if dest < 4 && p.members()[dest as int] is Some {
                action_views(acts) == seq![ActionView::Send(p.members()[dest as int]->0, Queued::Cmd6D(dest, m))]
            } else {
                acts.len() == 0
            })
        }),
{
    assert(action_views(acts).len() == acts.len());
}

/// A 0x60 subcommand: while a member bursts, an uninterpreted one is held
/// back unless its command byte is 0x7C; any other goes to every member but
/// the sender, after the experience award it asks for (made to `current`),
/// if any.
pub proof fn law_broadcast_subcommand_relay<M>(
    p: Party<M>,
    after: Party<M>,
    current: usize,
    sender: usize,
    m: SubCmd<M>,
    acts: Seq<PartyAction<M>>,
)
    requires
        p.handled_as(&after, current, sender, Queued::Cmd60(m), acts),
    ensures
        ({
            let held = p.spec_is_bursting() && (m.kind matches SubCmdKind::Unknown(c) && c != 0x7C);
            let to = recipients(p.members(), Some(sender));
            &&& held ==> acts.len() == 0 && after.queue() == p.queue().push((sender, Queued::Cmd60(m)))
            &&& !held ==> after.queue() == p.queue() && (match m.kind {
                SubCmdKind::ReqExp { enemy_id, last_hitter } => action_views(acts) == seq![
                    ActionView::AwardExp(current, enemy_id, last_hitter),
                    ActionView::Broadcast(to, Queued::Cmd60(m)),
                ],
                _ => action_views(acts) == seq![ActionView::Broadcast(to, Queued::Cmd60(m))],
            })
        }),
{
    if acts.len() == 0 {
        assert(action_views(acts).len() == 0);
    }
    let to = recipients(p.members(), Some(sender));
    assert(seq![ActionView::AwardExp(current, 0u16, 0u8)] + seq![ActionView::Broadcast(to, Queued::<M>::Cmd60(m))] =~= seq![
        ActionView::AwardExp(current, 0u16, 0u8),
        ActionView::Broadcast(to, Queued::<M>::Cmd60(m)),
    ]);
    if let SubCmdKind::ReqExp { enemy_id, last_hitter } = m.kind {
        assert(seq![ActionView::AwardExp(current, enemy_id, last_hitter)] + seq![ActionView::Broadcast(to, Queued::<M>::Cmd60(m))] =~= seq![
            ActionView::AwardExp(current, enemy_id, last_hitter),
            ActionView::Broadcast(to, Queued::<M>::Cmd60(m)),
        ]);
    } else {
        assert(Seq::<ActionView<M>>::empty() + seq![ActionView::Broadcast(to, Queued::<M>::Cmd60(m))] =~= seq![
            ActionView::Broadcast(to, Queued::<M>::Cmd60(m)),
        ]);
    }
}

/// A 0x6C subcommand is held back and relayed as a 0x60 one is: while a member bursts, an uninterpreted one is held
/// back unless its command byte is 0x7C; any other goes to every member but
/// the sender, after the experience award it asks for (made to `current`),
/// if any.
pub proof fn law_broadcast_subcommand_relay_6c<M>(
    p: Party<M>,
    after: Party<M>,
    current: usize,
    sender: usize,
    m: SubCmd<M>,
    acts: Seq<PartyAction<M>>,
)
    requires
        p.handled_as(&after, current, sender, Queued::Cmd6C(m), acts),
    ensures
        ({
            let held = p.spec_is_bursting() && (m.kind matches SubCmdKind::Unknown(c) && c != 0x7C);
            let to = recipients(p.members(), Some(sender));
            &&& held ==> acts.len() == 0 && after.queue() == p.queue().push((sender, Queued::Cmd6C(m)))
            &&& !held ==> after.queue() == p.queue() && (match m.kind {
                SubCmdKind::ReqExp { enemy_id, last_hitter } => action_views(acts) == seq![
                    ActionView::AwardExp(current, enemy_id, last_hitter),
                    ActionView::Broadcast(to, Queued::Cmd6C(m)),
                ],
                _ => action_views(acts) == seq![ActionView::Broadcast(to, Queued::Cmd6C(m))],
            })
        }),
{
    if acts.len() == 0 {
        assert(action_views(acts).len() == 0);
    }
    let to = recipients(p.members(), Some(sender));
    assert(seq![ActionView::AwardExp(current, 0u16, 0u8)] + seq![ActionView::Broadcast(to, Queued::<M>::Cmd6C(m))] =~= seq![
        ActionView::AwardExp(current, 0u16, 0u8),
        ActionView::Broadcast(to, Queued::<M>::Cmd6C(m)),
    ]);
    if let SubCmdKind::ReqExp { enemy_id, last_hitter } = m.kind {
        assert(seq![ActionView::AwardExp(current, enemy_id, last_hitter)] + seq![ActionView::Broadcast(to, Queued::<M>::Cmd6C(m))] =~= seq![
            ActionView::AwardExp(current, enemy_id, last_hitter),
            ActionView::Broadcast(to, Queued::<M>::Cmd6C(m)),
        ]);
    } else {
        assert(Seq::<ActionView<M>>::empty() + seq![ActionView::Broadcast(to, Queued::<M>::Cmd6C(m))] =~= seq![
            ActionView::Broadcast(to, Queued::<M>::Cmd6C(m)),
        ]);
    }
}

} // verus!
