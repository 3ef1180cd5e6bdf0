//! The block's handling of its clients' requests: which lobby or party a
//! client is in, creating, listing, joining and leaving parties, changing
//! lobbies, and routing subcommands. Each request is served for the client
//! `client_id`; the result says what the server sends, and to whom.

use vstd::prelude::*;
use vstd::string::StringExecFns;

use std::collections::HashMap;

use crate::block::client::{BlockClient, CharSave, FullChar, fresh_client, save_of};
use crate::block::lobbyhandler::{Lobby, LobbyJoinPlan, LobbyLeavePlan};
use crate::block::partyhandler::{
    BurstDone, JoinPlan, LeavePlan, Party, PartyAction, Queued, SubCmd, dispatchable, queue_dispatchable,
};
use crate::block::partyhandler::layout::{episode_ready, ep1_ready, ep2_ready, ep4_ready};
use crate::block::slots::{
    holds, occupied, recipients, first_empty, slot_of, lemma_first_empty, lemma_count_bound, lemma_slot_of,
};
use crate::login::handler::{SecurityData, SecurityReply, ChallengeStep, SESSION_MAGIC, accepted_reply};
use crate::maps::Areas;

verus! {

broadcast use vstd::std_specs::hash::group_hash_axioms;

/// The menu ID of the game list.
pub const MENU_GAME_LIST: u32 = 0x00080000;

/// The index of the first element of `s`, from index `k` on, that
/// satisfies `p`.
pub open spec fn first_from<T>(s: Seq<T>, p: spec_fn(T) -> bool, k: int) -> Option<int>
    decreases s.len() - k,
{
    if k < 0 || k >= s.len() {
        None
    } else if p(s[k]) {
        Some(k)
    } else {
        first_from(s, p, k + 1)
    }
}

/// What [`first_from`] finds.
pub proof fn lemma_first_from<T>(s: Seq<T>, p: spec_fn(T) -> bool, k: int)
    requires
        0 <= k <= s.len(),
    ensures
        first_from(s, p, k) matches Some(j) ==> k <= j < s.len() && p(s[j]) && forall|i: int|
            k <= i < j ==> !p(#[trigger] s[i]),
        first_from(s, p, k) is None ==> forall|i: int| k <= i < s.len() ==> !p(#[trigger] s[i]),
    decreases s.len() - k,
{
    if k < s.len() {
        lemma_first_from(s, p, k + 1);
    }
}

/// A lobby holds client `c`.
pub open spec fn lobby_holds(c: usize) -> spec_fn(Lobby) -> bool {
    |l: Lobby| holds(l.players(), c)
}

/// A lobby has a free slot.
pub open spec fn lobby_open() -> spec_fn(Lobby) -> bool {
    |l: Lobby| occupied(l.players()) < 12
}

/// A party holds client `c`.
pub open spec fn party_holds<M>(c: usize) -> spec_fn(Party<M>) -> bool {
    |p: Party<M>| holds(p.members(), c)
}

/// A party has this name.
pub open spec fn party_named<M>(name: Seq<char>) -> spec_fn(Party<M>) -> bool {
    |p: Party<M>| p.name@ == name
}

/// A party has this ID.
pub open spec fn party_with_id<M>(id: u32) -> spec_fn(Party<M>) -> bool {
    |p: Party<M>| p.unique_id == id
}

/// The first lobby that holds client `c`.
pub open spec fn lobby_of(ls: Seq<Lobby>, c: usize) -> Option<int> {
    first_from(ls, lobby_holds(c), 0)
}

/// The first lobby with a free slot.
pub open spec fn open_lobby(ls: Seq<Lobby>) -> Option<int> {
    first_from(ls, lobby_open(), 0)
}

/// The first party that holds client `c`.
pub open spec fn party_of<M>(ps: Seq<Party<M>>, c: usize) -> Option<int> {
    first_from(ps, party_holds(c), 0)
}

/// At most one slot is bursting.
pub open spec fn one_burster(b: Seq<bool>) -> bool {
    forall|i: int, j: int| 0 <= i < b.len() && 0 <= j < b.len() && #[trigger] b[i] && #[trigger] b[j] ==> i == j
}

/// A party as the block keeps it: well formed, every held-back command
/// can be carried out, and at most one player bursts at a time.
pub open spec fn party_ok<M>(p: Party<M>) -> bool {
    &&& p.wf()
    &&& queue_dispatchable(p.queue())
    &&& one_burster(p.bursting())
}

/// No two parties have the same ID.
pub open spec fn ids_distinct<M>(ps: Seq<Party<M>>) -> bool {
    forall|i: int, j: int|
        0 <= i < ps.len() && 0 <= j < ps.len() && i != j ==> #[trigger] ps[i].unique_id != #[trigger] ps[j].unique_id
}

/// `after` is the lobby list `before` once client `c` left their lobby,
/// `plan` telling the others; with no lobby holding them, nothing changed.
pub open spec fn lobby_left_in(before: Seq<Lobby>, after: Seq<Lobby>, c: usize, plan: Option<LobbyLeavePlan>) -> bool {
    match lobby_of(before, c) {
        Some(k) => after == before.update(k, after[k]) && before[k].left_as(&after[k], c, plan),
        None => after == before && plan is None,
    }
}

/// `after` is the lobby list `before` once client `c` left their lobby,
/// `left` telling the others, and then joined lobby `t`, `plan` telling of
/// the join.
pub open spec fn lobby_moved_in(
    before: Seq<Lobby>,
    after: Seq<Lobby>,
    c: usize,
    t: int,
    left: Option<LobbyLeavePlan>,
    plan: LobbyJoinPlan,
) -> bool {
    exists|mid: Seq<Lobby>|
        #![trigger lobby_left_in(before, mid, c, left)]
        lobby_left_in(before, mid, c, left) && after == mid.update(t, after[t]) && mid[t].joined_as(&after[t], c, plan)
}

/// The password a party is created with: none for an empty one.
pub open spec fn create_password(m: CreateGame) -> Option<Seq<char>> {
    if m.password@.len() == 0 {
        None
    } else {
        Some(m.password@)
    }
}

/// `p` is a party created by request `m` from a lobby with event `event`,
/// laid out with `maps`, with ID `id`, once its creator `c` joined it as
/// `plan` tells.
pub open spec fn party_created<M>(
    p: Party<M>,
    m: CreateGame,
    event: u16,
    maps: Areas,
    id: u32,
    c: usize,
    chara_section: u8,
    char_section: u8,
    plan: JoinPlan,
) -> bool {
    exists|q: Party<M>|
        #![trigger q.joined_as(&p, c, chara_section, char_section, plan)]
        q.created_as(
            m.name@,
            create_password(m),
            m.episode,
            m.difficulty,
            m.battle != 0,
            m.challenge != 0,
            m.single_player > 0,
            event,
            maps,
            id,
        ) && q.joined_as(&p, c, chara_section, char_section, plan)
}

/// `after` is the party list `before` once client `c` left party `j`, `p`
/// telling the others; a party left with no one to lead it is removed.
pub open spec fn party_left_at<M>(before: Seq<Party<M>>, after: Seq<Party<M>>, j: int, c: usize, p: LeavePlan) -> bool {
    exists|q: Party<M>|
        #![trigger before[j].left_as(&q, c, p)]
        before[j].left_as(&q, c, p) && after == (if p.destroy {
            before.remove(j)
        } else {
            before.update(j, q)
        })
}

/// `after` is the party list `before` once client `c` left their party,
/// `plan` telling the others; a party left with no one to lead it is
/// removed. With no party holding them, nothing changed.
pub open spec fn party_left_in<M>(before: Seq<Party<M>>, after: Seq<Party<M>>, c: usize, plan: Option<LeavePlan>) -> bool {
    match party_of(before, c) {
        Some(j) => plan is Some && party_left_at(before, after, j, c, plan->0),
        None => after == before && plan is None,
    }
}

/// No two lobbies hold client `c`.
pub open spec fn in_one_lobby_at_most(ls: Seq<Lobby>, c: usize) -> bool {
    forall|x: int, y: int|
        0 <= x < ls.len() && 0 <= y < ls.len() && holds(#[trigger] ls[x].players(), c) && holds(
            #[trigger] ls[y].players(),
            c,
        ) ==> x == y
}

/// At most one party holds client `c`, and in one slot at most.
pub open spec fn in_one_party_slot_at_most<M>(ps: Seq<Party<M>>, c: usize) -> bool {
    &&& forall|x: int, y: int|
        0 <= x < ps.len() && 0 <= y < ps.len() && holds(#[trigger] ps[x].members(), c) && holds(
            #[trigger] ps[y].members(),
            c,
        ) ==> x == y
    &&& forall|x: int, i: int, j: int|
        0 <= x < ps.len() && 0 <= i < ps[x].members().len() && 0 <= j < ps[x].members().len()
            && #[trigger] ps[x].members()[i] == Some(c) && #[trigger] ps[x].members()[j] == Some(c) ==> i == j
}

/// A client held by one party at most, in one slot at most, is held by no
/// party once they left their party.
pub proof fn lemma_left_no_party<M>(before: Seq<Party<M>>, after: Seq<Party<M>>, c: usize, plan: Option<LeavePlan>)
    requires
        party_left_in(before, after, c, plan),
        in_one_party_slot_at_most(before, c),
    ensures
        forall|x: int| 0 <= x < after.len() ==> !holds(#[trigger] after[x].members(), c),
{
    lemma_first_from(before, party_holds(c), 0);
    match party_of(before, c) {
        None => {
            assert forall|x: int| 0 <= x < after.len() implies !holds(#[trigger] after[x].members(), c) by {
                assert(!party_holds(c)(before[x]));
            }
        },
        Some(j) => {
            let p = plan->0;
            let q = choose|q: Party<M>| #![trigger before[j].left_as(&q, c, p)]
                before[j].left_as(&q, c, p) && after == (if p.destroy {
                    before.remove(j)
                } else {
                    before.update(j, q)
                });
            assert(party_holds(c)(before[j]));
            let m = before[j].members();
            let i = slot_of(m, c)->0;
            lemma_slot_of(m, c, 0);
            assert forall|x: int| 0 <= x < after.len() implies !holds(#[trigger] after[x].members(), c) by {
                if p.destroy {
                    let y = if x < j { x } else { x + 1 };
                    assert(after[x] == before[y]);
                    if holds(before[y].members(), c) {
                        assert(y == j);
                    }
                } else if x == j {
                    assert(q.members() == m.update(i, None));
                    if holds(q.members(), c) {
                        let k = choose|k: int| 0 <= k < q.members().len() && q.members()[k] == Some(c);
                        assert(m[k] == Some(c));
                        assert(m[i] == Some(c));
                    }
                } else {
                    assert(after[x] == before[x]);
                    if holds(before[x].members(), c) {
                        assert(x == j);
                    }
                }
            }
        },
    }
}

/// Changing lobbies puts the client in the chosen lobby; a client who was
/// in at most one lobby before is in no other lobby after.
pub proof fn law_lobby_change_moves(
    before: Seq<Lobby>,
    after: Seq<Lobby>,
    c: usize,
    t: int,
    left: Option<LobbyLeavePlan>,
    plan: LobbyJoinPlan,
)
    requires
        0 <= t < before.len(),
        forall|k: int| 0 <= k < before.len() ==> #[trigger] before[k].wf(),
        lobby_moved_in(before, after, c, t, left, plan),
    ensures
        holds(after[t].players(), c),
        in_one_lobby_at_most(before, c) ==> forall|x: int|
            0 <= x < after.len() && x != t ==> !holds(#[trigger] after[x].players(), c),
{
    let mid = choose|mid: Seq<Lobby>|
        #![trigger lobby_left_in(before, mid, c, left)]
        lobby_left_in(before, mid, c, left) && after == mid.update(t, after[t]) && mid[t].joined_as(&after[t], c, plan);
    lemma_first_empty(mid[t].players(), 0);
    let i = first_empty(mid[t].players())->0;
    assert(after[t].players()[i] == Some(c));
    lemma_first_from(before, lobby_holds(c), 0);
    if in_one_lobby_at_most(before, c) {
        assert forall|x: int| 0 <= x < after.len() && x != t implies !holds(#[trigger] after[x].players(), c) by {
            assert(after[x] == mid[x]);
            match lobby_of(before, c) {
                Some(k) => {
                    if x == k {
                        before[k].lemma_left_gone(&mid[k], c, left);
                    } else {
                        assert(mid[x] == before[x]);
                        if holds(before[x].players(), c) {
                            assert(lobby_holds(c)(before[k]));
                        }
                    }
                },
                None => {
                    assert(!lobby_holds(c)(before[x]));
                },
            }
        }
    }
}

/// A client who leaves their lobby, having been in at most one, is in no
/// lobby after.
pub proof fn lemma_left_no_lobby(before: Seq<Lobby>, after: Seq<Lobby>, c: usize, plan: Option<LobbyLeavePlan>)
    requires
        forall|k: int| 0 <= k < before.len() ==> #[trigger] before[k].wf(),
        lobby_left_in(before, after, c, plan),
        in_one_lobby_at_most(before, c),
    ensures
        after.len() == before.len(),
        forall|x: int| 0 <= x < after.len() ==> !holds(#[trigger] after[x].players(), c),
{
    lemma_first_from(before, lobby_holds(c), 0);
    assert forall|x: int| 0 <= x < after.len() implies !holds(#[trigger] after[x].players(), c) by {
        match lobby_of(before, c) {
            Some(k) => {
                if x == k {
                    before[k].lemma_left_gone(&after[k], c, plan);
                } else {
                    assert(after[x] == before[x]);
                    if holds(before[x].players(), c) {
                        assert(lobby_holds(c)(before[k]));
                    }
                }
            },
            None => {
                assert(!lobby_holds(c)(before[x]));
            },
        }
    }
}

/// Creating a party puts its creator in it; a creator who was in at most
/// one lobby is in no lobby after.
pub proof fn law_create_game_moves<M>(
    before_lobbies: Seq<Lobby>,
    after_lobbies: Seq<Lobby>,
    p: Party<M>,
    c: usize,
    left: Option<LobbyLeavePlan>,
    m: CreateGame,
    event: u16,
    maps: Areas,
    id: u32,
    chara_section: u8,
    char_section: u8,
    plan: JoinPlan,
)
    requires
        forall|k: int| 0 <= k < before_lobbies.len() ==> #[trigger] before_lobbies[k].wf(),
        lobby_left_in(before_lobbies, after_lobbies, c, left),
        party_created(p, m, event, maps, id, c, chara_section, char_section, plan),
    ensures
        holds(p.members(), c),
        in_one_lobby_at_most(before_lobbies, c) ==> forall|x: int|
            0 <= x < after_lobbies.len() ==> !holds(#[trigger] after_lobbies[x].players(), c),
{
    let q = choose|q: Party<M>|
        #![trigger q.joined_as(&p, c, chara_section, char_section, plan)]
        q.created_as(
            m.name@,
            create_password(m),
            m.episode,
            m.difficulty,
            m.battle != 0,
            m.challenge != 0,
            m.single_player > 0,
            event,
            maps,
            id,
        ) && q.joined_as(&p, c, chara_section, char_section, plan);
    lemma_first_empty(q.members(), 0);
    let i = first_empty(q.members())->0;
    assert(p.members()[i] == Some(c));
    if in_one_lobby_at_most(before_lobbies, c) {
        lemma_left_no_lobby(before_lobbies, after_lobbies, c, left);
    }
}

/// Joining a party from the game list puts the client in it; a client who
/// was in at most one lobby is in no lobby after.
pub proof fn law_menu_join_moves<M>(
    before_lobbies: Seq<Lobby>,
    after_lobbies: Seq<Lobby>,
    before: Party<M>,
    after: Party<M>,
    c: usize,
    left: Option<LobbyLeavePlan>,
    chara_section: u8,
    char_section: u8,
    plan: JoinPlan,
)
    requires
        forall|k: int| 0 <= k < before_lobbies.len() ==> #[trigger] before_lobbies[k].wf(),
        lobby_left_in(before_lobbies, after_lobbies, c, left),
        before.joined_as(&after, c, chara_section, char_section, plan),
    ensures
        holds(after.members(), c),
        in_one_lobby_at_most(before_lobbies, c) ==> forall|x: int|
            0 <= x < after_lobbies.len() ==> !holds(#[trigger] after_lobbies[x].players(), c),
{
    lemma_first_empty(before.members(), 0);
    let i = first_empty(before.members())->0;
    assert(after.members()[i] == Some(c));
    if in_one_lobby_at_most(before_lobbies, c) {
        lemma_left_no_lobby(before_lobbies, after_lobbies, c, left);
    }
}

/// The game list's first entry, which the client shows as its header.
pub open spec fn is_list_header(e: GameListEntry) -> bool {
    &&& e.menu_id == MENU_GAME_LIST
    &&& e.item_id == 0xFFFF_FFFFu32
    &&& e.name@.len() == 0
    &&& e.episode == 0
    &&& e.difficulty == 0
    &&& e.players == 0
    &&& e.flags == 4
}

/// The flags of a party's game list entry: 0x02 for a password, 0x10 for
/// battle mode, 0x20 for challenge mode, 0x04 for a single-player party.
pub open spec fn list_flags<M>(p: Party<M>) -> u8 {
    (if p.password is Some { 2u8 } else { 0u8 }) | (if p.battle { 0x10u8 } else { 0u8 }) | (if p.challenge {
        0x20u8
    } else {
        0u8
    }) | (if p.single_player { 4u8 } else { 0u8 })
}

/// The game list entry of a party.
pub open spec fn is_list_entry<M>(e: GameListEntry, p: Party<M>) -> bool {
    &&& e.menu_id == MENU_GAME_LIST
    &&& e.item_id == p.unique_id
    &&& e.name@ == p.name@
    &&& e.episode == (0x40u8 | p.episode)
    &&& e.difficulty == 0x22 + p.difficulty
    &&& e.players == occupied(p.members())
    &&& e.flags == list_flags(p)
}

/// Why a request was refused. A fatal refusal disconnects the client.
#[derive(Clone, Copy, Debug, PartialEq, Eq, Structural)]
pub enum BlockError {
    /// Every lobby of the block is full (fatal).
    AllLobbiesFull,
    /// A party of that name exists.
    PartyNameTaken,
    /// Challenge mode was asked for on Episode 4.
    ChallengeOnEpisode4,
    /// Battle mode was asked for.
    BattleUnsupported,
    /// Challenge mode was asked for.
    ChallengeUnsupported,
    /// The request does not fit where the client is (fatal).
    IllegalMessage,
    /// The client asked for a party name outside a party (fatal).
    NotInParty,
    /// The chosen lobby is full.
    LobbyFull,
    /// The chosen lobby does not exist (fatal).
    InvalidLobby,
    /// Someone in the chosen party is still loading into it.
    PlayerBursting,
    /// The chosen party is for one person.
    OnePersonOnly,
    /// The chosen party is full.
    PartyFull,
    /// The chosen party does not exist.
    PartyGone,
    /// The menu is not one the block serves.
    InvalidMenu,
}

/// The text the client is shown for a refusal.
pub open spec fn error_text(e: BlockError) -> Seq<char> {
    match e {
        BlockError::AllLobbiesFull => "\tEAll lobbies on this block are full. Please try again."@,
        BlockError::PartyNameTaken => "\tEA party with that\nname already exists."@,
        BlockError::ChallengeOnEpisode4 =>
            "\tEChallenge mode is not supported\non Episode 4.\nOnly Episode 1 and 2 have\nChallenge mode."@,
        BlockError::BattleUnsupported => "\tEBattle mode is not\nsupported yet. Sorry!"@,
        BlockError::ChallengeUnsupported => "\tEChallenge mode is not\nsupported yet. Sorry!"@,
        BlockError::IllegalMessage => "\tEIllegal message"@,
        BlockError::NotInParty => "\tEIllegal message."@,
        BlockError::LobbyFull => "\tELobby is full."@,
        BlockError::InvalidLobby => "\tEYou tried to join an invalid lobby.\nDisconnected."@,
        BlockError::PlayerBursting => "\tEA player is bursting.\nPlease wait."@,
        BlockError::OnePersonOnly => "\tEParty is One Person only."@,
        BlockError::PartyFull => "\tEParty is full."@,
        BlockError::PartyGone => "\tEParty no longer\texists."@,
        BlockError::InvalidMenu => "\tEInvalid menu"@,
    }
}

/// The refusals that disconnect the client.
pub open spec fn error_fatal(e: BlockError) -> bool {
    e is AllLobbiesFull || e is IllegalMessage || e is NotInParty || e is InvalidLobby
}

impl BlockError {
    /// The text the client is shown.
    pub fn text(&self) -> (r: String)
        ensures
            r@ == error_text(*self),
    {
        match self {
            BlockError::AllLobbiesFull => String::from_str("\tEAll lobbies on this block are full. Please try again."),
            BlockError::PartyNameTaken => String::from_str("\tEA party with that\nname already exists."),
            BlockError::ChallengeOnEpisode4 => String::from_str(
                "\tEChallenge mode is not supported\non Episode 4.\nOnly Episode 1 and 2 have\nChallenge mode.",
            ),
            BlockError::BattleUnsupported => String::from_str("\tEBattle mode is not\nsupported yet. Sorry!"),
            BlockError::ChallengeUnsupported => String::from_str("\tEChallenge mode is not\nsupported yet. Sorry!"),
            BlockError::IllegalMessage => String::from_str("\tEIllegal message"),
            BlockError::NotInParty => String::from_str("\tEIllegal message."),
            BlockError::LobbyFull => String::from_str("\tELobby is full."),
            BlockError::InvalidLobby => String::from_str("\tEYou tried to join an invalid lobby.\nDisconnected."),
            BlockError::PlayerBursting => String::from_str("\tEA player is bursting.\nPlease wait."),
            BlockError::OnePersonOnly => String::from_str("\tEParty is One Person only."),
            BlockError::PartyFull => String::from_str("\tEParty is full."),
            BlockError::PartyGone => String::from_str("\tEParty no longer\texists."),
            BlockError::InvalidMenu => String::from_str("\tEInvalid menu"),
        }
    }

    /// Whether the client is disconnected after being told.
    pub fn is_fatal(&self) -> (r: bool)
        ensures
            r == error_fatal(*self),
    {
        match self {
            BlockError::AllLobbiesFull | BlockError::IllegalMessage | BlockError::NotInParty
            | BlockError::InvalidLobby => true,
            _ => false,
        }
    }
}

/// A request to create a party.
pub struct CreateGame {
    pub name: String,
    pub password: String,
    pub episode: u8,
    pub difficulty: u8,
    pub battle: u8,
    pub challenge: u8,
    pub single_player: u8,
}

/// An entry of the game list.
#[derive(Clone, Debug, PartialEq, Eq)]
pub struct GameListEntry {
    pub menu_id: u32,
    pub item_id: u32,
    pub name: String,
    pub episode: u8,
    pub difficulty: u8,
    pub players: u8,
    pub flags: u8,
}

/// Where a subcommand goes: to lobby members (the lobby relays it
/// unchanged), or through the party's handling.
pub enum Routed<M> {
    Lobby { to: Vec<usize>, msg: SubCmd<M> },
    Party(Vec<PartyAction<M>>),
}

/// Client `c`'s record in `t` once the account data arrived: the security
/// data `offered`, the team, the guild card and the account are recorded;
/// the character stays as it was.
pub open spec fn account_recorded(
    t: Map<usize, BlockClient>,
    c: usize,
    offered: SecurityData,
    guildcard: u32,
    team_id: u32,
    account_id: u32,
) -> Map<usize, BlockClient> {
    t.insert(
        c,
        BlockClient { sec_data: offered, team_id, bb_guildcard: guildcard, account_id, full_char: t[c].full_char },
    )
}

/// Client `c`'s record in `t` once their character `fc` arrived.
pub open spec fn char_recorded(t: Map<usize, BlockClient>, c: usize, fc: FullChar) -> Map<usize, BlockClient> {
    t.insert(c, BlockClient { full_char: Some(fc), ..t[c] })
}

/// A client who logged in with security data `offered` to account
/// `account_id` and whose character `fc` was loaded has, when they
/// disconnect, `fc` saved under `account_id` in the slot they chose.
pub proof fn law_disconnect_saves_login(
    t: Map<usize, BlockClient>,
    c: usize,
    offered: SecurityData,
    guildcard: u32,
    team_id: u32,
    account_id: u32,
    fc: FullChar,
    save: Option<CharSave>,
)
    requires
        t.contains_key(c),
        save_of(char_recorded(account_recorded(t, c, offered, guildcard, team_id, account_id), c, fc)[c], save),
    ensures
        save matches Some(cs) && cs.account_id == account_id && cs.slot == offered.slot && cs.full_char == fc,
{
}

/// The lobbies and parties of a block, its clients' records, and the
/// client being served.
pub struct BlockHandler<M> {
    client_id: usize,
    clients: HashMap<usize, BlockClient>,
    lobbies: Vec<Lobby>,
    parties: Vec<Party<M>>,
    party_counter: u32,
}

/// The number of lobbies of a block.
pub const NUM_LOBBIES: usize = 15;

impl<M> BlockHandler<M> {
    /// The lobbies.
    pub closed spec fn lobby_list(&self) -> Seq<Lobby> {
        self.lobbies@
    }

    /// The parties, oldest first.
    pub closed spec fn party_list(&self) -> Seq<Party<M>> {
        self.parties@
    }

    /// The connection of the client being served.
    pub closed spec fn client(&self) -> usize {
        self.client_id
    }

    /// The ID the next party gets.
    pub closed spec fn counter(&self) -> u32 {
        self.party_counter
    }

    /// The records of the connected clients, by connection.
    pub closed spec fn client_table(&self) -> Map<usize, BlockClient> {
        self.clients@
    }

    /// The block's invariant: fifteen well-formed lobbies; every party as
    /// [`party_ok`] says, with an ID below the counter and unlike every
    /// other party's.
    pub open spec fn wf(&self) -> bool {
        &&& self.lobby_list().len() == NUM_LOBBIES
        &&& forall|k: int| 0 <= k < self.lobby_list().len() ==> #[trigger] self.lobby_list()[k].wf()
        &&& forall|j: int| 0 <= j < self.party_list().len() ==> party_ok(#[trigger] self.party_list()[j])
        &&& forall|j: int| 0 <= j < self.party_list().len() ==> #[trigger] self.party_list()[j].unique_id < self.counter()
        &&& ids_distinct(self.party_list())
    }

    /// Only the lobbies changed, the others than lobby `k` are as they were.
    pub open spec fn lobby_changed(&self, after: &Self, k: int) -> bool {
        &&& after.lobby_list() == self.lobby_list().update(k, after.lobby_list()[k])
        &&& after.party_list() == self.party_list()
        &&& after.counter() == self.counter()
        &&& after.client() == self.client()
        &&& after.client_table() == self.client_table()
    }

    /// Why a request `m` to create a party is refused before the client
    /// leaves their lobby, if it is: a party of that name exists, or an
    /// unsupported mode is asked for, or the client is in no lobby.
    pub open spec fn create_refusal(&self, m: CreateGame) -> Option<BlockError> {
        if first_from(self.party_list(), party_named(m.name@), 0) is Some {
            Some(BlockError::PartyNameTaken)
        } else if m.challenge != 0 && m.episode == 3 {
            Some(BlockError::ChallengeOnEpisode4)
        } else if m.battle != 0 {
            Some(BlockError::BattleUnsupported)
        } else if m.challenge != 0 {
            Some(BlockError::ChallengeUnsupported)
        } else if lobby_of(self.lobby_list(), self.client()) is None {
            Some(BlockError::IllegalMessage)
        } else {
            None
        }
    }

    /// The seasonal event of the client's lobby.
    pub open spec fn lobby_event(&self) -> u16 {
        self.lobby_list()[lobby_of(self.lobby_list(), self.client())->0].spec_event()
    }

    /// A request `m` gets as far as creating a party: it is not refused,
    /// and the client's lobby's event is not 0xFFFF, which stands for
    /// having found no lobby.
    pub open spec fn creates(&self, m: CreateGame) -> bool {
        self.create_refusal(m) is None && self.lobby_event() != 0xFFFF
    }

    /// Why the client's request to join party `item_id` from menu
    /// `menu_id` is refused, if it is.
    pub open spec fn join_refusal(&self, menu_id: u32, item_id: u32) -> Option<BlockError> {
        if menu_id != MENU_GAME_LIST {
            Some(BlockError::InvalidMenu)
        } else {
            match first_from(self.party_list(), party_with_id(item_id), 0) {
                None => Some(BlockError::PartyGone),
                Some(j) => if self.party_list()[j].spec_is_bursting() {
                    Some(BlockError::PlayerBursting)
                } else if self.party_list()[j].single_player {
                    Some(BlockError::OnePersonOnly)
                } else if occupied(self.party_list()[j].members()) >= 4 {
                    Some(BlockError::PartyFull)
                } else {
                    None
                },
            }
        }
    }

    /// Only party `j` changed.
    pub open spec fn party_changed(&self, after: &Self, j: int) -> bool {
        &&& after.party_list() == self.party_list().update(j, after.party_list()[j])
        &&& after.lobby_list() == self.lobby_list()
        &&& after.counter() == self.counter()
        &&& after.client() == self.client()
        &&& after.client_table() == self.client_table()
    }

    /// The block of `block_num` with fifteen empty lobbies, numbered 0 to
    /// 14, all with the seasonal event `event`, and no parties.
    pub fn new(block_num: u16, event: u16) -> (h: BlockHandler<M>)
        ensures
            h.wf(),
            h.client() == 0,
            h.party_list().len() == 0,
            h.counter() == 0,
            h.client_table() == Map::<usize, BlockClient>::empty(),
            forall|k: int|
                0 <= k < NUM_LOBBIES ==> {
                    &&& (#[trigger] h.lobby_list()[k]).players() == Seq::new(12, |_i: int| None::<usize>)
                    &&& h.lobby_list()[k].leader() == 0
                    &&& h.lobby_list()[k].spec_lobby_num() == k
                    &&& h.lobby_list()[k].spec_block_num() == block_num
                    &&& h.lobby_list()[k].spec_event() == event
                },
    {
        let mut lobbies: Vec<Lobby> = Vec::new();
        let mut i: u8 = 0;
        while i < 15
            invariant
                i <= 15,
                lobbies@.len() == i,
                forall|k: int|
                    0 <= k < i ==> {
                        &&& (#[trigger] lobbies@[k]).wf()
                        &&& lobbies@[k].players() == Seq::new(12, |_i: int| None::<usize>)
                        &&& lobbies@[k].leader() == 0
                        &&& lobbies@[k].spec_lobby_num() == k
                        &&& lobbies@[k].spec_block_num() == block_num
                        &&& lobbies@[k].spec_event() == event
                    },
            decreases 15 - i,
        {
            lobbies.push(Lobby::new(i, block_num, event));
            i = i + 1;
        }
        BlockHandler { client_id: 0, clients: HashMap::new(), lobbies, parties: Vec::new(), party_counter: 0 }
    }

    /// Serves the client on connection `client` from now on.
    pub fn serve(&mut self, client: usize)
        ensures
            final(self).client() == client,
            final(self).lobby_list() == old(self).lobby_list(),
            final(self).party_list() == old(self).party_list(),
            final(self).counter() == old(self).counter(),
            final(self).client_table() == old(self).client_table(),
    {
        self.client_id = client;
    }

    /// Client `id` connected: the block keeps a fresh record of them,
    /// replacing any it had under that connection.
    pub fn client_connected(&mut self, id: usize)
        ensures
            final(self).client_table().dom() == old(self).client_table().dom().insert(id),
            fresh_client(final(self).client_table()[id]),
            forall|c: usize| c != id && #[trigger] old(self).client_table().contains_key(c)
                ==> final(self).client_table()[c] == old(self).client_table()[c],
            final(self).lobby_list() == old(self).lobby_list(),
            final(self).party_list() == old(self).party_list(),
            final(self).counter() == old(self).counter(),
            final(self).client() == old(self).client(),
    {
        self.clients.insert(id, BlockClient::new());
    }

    /// The connection of the client being served.
    pub fn client_id(&self) -> (r: usize)
        ensures
            r == self.client(),
    {
        self.client_id
    }

    /// The number of parties.
    pub fn num_parties(&self) -> (r: usize)
        ensures
            r == self.party_list().len(),
    {
        self.parties.len()
    }

    /// Lobby `k`.
    pub fn lobby(&self, k: usize) -> (r: &Lobby)
        requires
            k < self.lobby_list().len(),
        ensures
            *r == self.lobby_list()[k as int],
    {
        &self.lobbies[k]
    }

    /// Party `j`.
    pub fn party(&self, j: usize) -> (r: &Party<M>)
        requires
            j < self.party_list().len(),
        ensures
            *r == self.party_list()[j as int],
    {
        &self.parties[j]
    }

    /// The first lobby that holds client `c`.
    pub fn find_lobby(&self, c: usize) -> (r: Option<usize>)
        ensures
            r matches Some(k) ==> lobby_of(self.lobby_list(), c) == Some(k as int) && k < self.lobby_list().len(),
            r is None ==> lobby_of(self.lobby_list(), c) is None,
    {
        let mut i: usize = 0;
        while i < self.lobbies.len()
            invariant
                i <= self.lobbies@.len(),
                lobby_of(self.lobbies@, c) == first_from(self.lobbies@, lobby_holds(c), i as int),
            decreases self.lobbies@.len() - i,
        {
            if self.lobbies[i].has_player(c) {
                return Some(i);
            }
            i = i + 1;
        }
        None
    }

    /// The first lobby with a free slot.
    pub fn find_open_lobby(&self) -> (r: Option<usize>)
        ensures
            r matches Some(k) ==> open_lobby(self.lobby_list()) == Some(k as int) && k < self.lobby_list().len(),
            r is None ==> open_lobby(self.lobby_list()) is None,
    {
        let mut i: usize = 0;
        while i < self.lobbies.len()
            invariant
                i <= self.lobbies@.len(),
                open_lobby(self.lobbies@) == first_from(self.lobbies@, lobby_open(), i as int),
            decreases self.lobbies@.len() - i,
        {
            if !self.lobbies[i].is_full() {
                return Some(i);
            }
            i = i + 1;
        }
        None
    }

    /// The first party that holds client `c`.
    pub fn find_party(&self, c: usize) -> (r: Option<usize>)
        ensures
            r matches Some(j) ==> party_of(self.party_list(), c) == Some(j as int) && j < self.party_list().len(),
            r is None ==> party_of(self.party_list(), c) is None,
    {
        let mut i: usize = 0;
        while i < self.parties.len()
            invariant
                i <= self.parties@.len(),
                party_of(self.parties@, c) == first_from(self.parties@, party_holds(c), i as int),
            decreases self.parties@.len() - i,
        {
            if self.parties[i].has_player(c) {
                return Some(i);
            }
            i = i + 1;
        }
        None
    }

    /// The first party named `name`.
    fn find_party_named(&self, name: &String) -> (r: Option<usize>)
        ensures
            r matches Some(j) ==> first_from(self.party_list(), party_named(name@), 0) == Some(j as int) && j
                < self.party_list().len(),
            r is None ==> first_from(self.party_list(), party_named(name@), 0) is None,
    {
        let mut i: usize = 0;
        while i < self.parties.len()
            invariant
                i <= self.parties@.len(),
                first_from(self.parties@, party_named(name@), 0) == first_from(
                    self.parties@,
                    party_named(name@),
                    i as int,
                ),
            decreases self.parties@.len() - i,
        {
            if self.parties[i].name == *name {
                return Some(i);
            }
            i = i + 1;
        }
        None
    }

    /// The first party with ID `id`.
    fn find_party_id(&self, id: u32) -> (r: Option<usize>)
        ensures
            r matches Some(j) ==> first_from(self.party_list(), party_with_id(id), 0) == Some(j as int) && j
                < self.party_list().len(),
            r is None ==> first_from(self.party_list(), party_with_id(id), 0) is None,
    {
        let mut i: usize = 0;
        while i < self.parties.len()
            invariant
                i <= self.parties@.len(),
                first_from(self.parties@, party_with_id(id), 0) == first_from(self.parties@, party_with_id(id), i as int),
            decreases self.parties@.len() - i,
        {
            if self.parties[i].unique_id == id {
                return Some(i);
            }
            i = i + 1;
        }
        None
    }
    /// A client that loaded their character joins the first lobby with a
    /// free slot; with none, they are refused.
    pub fn bb_char_dat(&mut self) -> (r: Result<LobbyJoinPlan, BlockError>)
        requires
            old(self).wf(),
            open_lobby(old(self).lobby_list()) matches Some(k) ==> !holds(
                old(self).lobby_list()[k].players(),
                old(self).client(),
            ),
        ensures
            final(self).wf(),
            open_lobby(old(self).lobby_list()) is None ==> r == Err::<LobbyJoinPlan, BlockError>(
                BlockError::AllLobbiesFull,
            ) && *final(self) == *old(self),
            open_lobby(old(self).lobby_list()) matches Some(k) ==> (r matches Ok(plan) && old(self).lobby_changed(
                final(self),
                k,
            ) && old(self).lobby_list()[k].joined_as(&final(self).lobby_list()[k], old(self).client(), plan)),
    {
        let k = match self.find_open_lobby() {
            Some(k) => k,
            None => return Err(BlockError::AllLobbiesFull),
        };
        proof {
            lemma_first_from(self.lobbies@, lobby_open(), 0);
            self.lobbies@[k as int].lemma_wf();
            lemma_first_empty(self.lobbies@[k as int].players(), 0);
        }
        let c = self.client_id;
        match self.lobbies[k].add_player(c) {
            Ok(plan) => Ok(plan),
            Err(_) => {
                assert(false);
                Err(BlockError::AllLobbiesFull)
            },
        }
    }

    /// The name of the client's party, which they asked for; outside a
    /// party they are refused.
    pub fn bb_game_name(&self) -> (r: Result<String, BlockError>)
        ensures
            party_of(self.party_list(), self.client()) matches Some(j) ==> (r matches Ok(s) && s@
                == self.party_list()[j].name@),
            party_of(self.party_list(), self.client()) is None ==> r == Err::<String, BlockError>(
                BlockError::NotInParty,
            ),
    {
        match self.find_party(self.client_id) {
            Some(j) => Ok(self.parties[j].handle_bb_game_name()),
            None => Err(BlockError::NotInParty),
        }
    }

    /// Whom the client's chat message goes to: every player of their lobby,
    /// themselves too, or else of their party; `None` when they are in
    /// neither.
    pub fn bb_chat(&self) -> (r: Option<Vec<usize>>)
        ensures
            lobby_of(self.lobby_list(), self.client()) matches Some(k) ==> (r matches Some(v) && v@ == recipients(
                self.lobby_list()[k].players(),
                None,
            )),
            lobby_of(self.lobby_list(), self.client()) is None ==> (party_of(self.party_list(), self.client()) matches Some(
                j,
            ) ==> (r matches Some(v) && v@ == recipients(self.party_list()[j].members(), None))),
            lobby_of(self.lobby_list(), self.client()) is None && party_of(self.party_list(), self.client()) is None
                ==> r is None,
    {
        if let Some(k) = self.find_lobby(self.client_id) {
            return Some(self.lobbies[k].bb_broadcast(None));
        }
        match self.find_party(self.client_id) {
            Some(j) => Some(self.parties[j].bb_broadcast(None)),
            None => None,
        }
    }

    /// The game list: a header entry, then one entry per party, oldest
    /// first.
    pub fn bb_game_list(&self) -> (r: Vec<GameListEntry>)
        requires
            self.wf(),
            forall|j: int| 0 <= j < self.party_list().len() ==> #[trigger] self.party_list()[j].difficulty <= 0xDD,
        ensures
            r@.len() == self.party_list().len() + 1,
            is_list_header(r@[0]),
            forall|j: int| 0 <= j < self.party_list().len() ==> is_list_entry(#[trigger] r@[j + 1], self.party_list()[j]),
    {
        let mut games: Vec<GameListEntry> = Vec::new();
        games.push(
            GameListEntry {
                menu_id: MENU_GAME_LIST,
                item_id: 0xFFFF_FFFF,
                name: String::new(),
                episode: 0,
                difficulty: 0,
                players: 0,
                flags: 4,
            },
        );
        let mut i: usize = 0;
        while i < self.parties.len()
            invariant
                self.wf(),
                forall|j: int| 0 <= j < self.party_list().len() ==> #[trigger] self.party_list()[j].difficulty <= 0xDD,
                i <= self.parties@.len(),
                games@.len() == i + 1,
                is_list_header(games@[0]),
                forall|j: int| 0 <= j < i ==> is_list_entry(#[trigger] games@[j + 1], self.party_list()[j]),
            decreases self.parties@.len() - i,
        {
            let p = &self.parties[i];
            assert(party_ok(self.party_list()[i as int]));
            proof {
                lemma_count_bound(p.members(), 0);
            }
            let pw: u8 = if p.password.is_some() { 2 } else { 0 };
            let battle: u8 = if p.battle { 0x10 } else { 0 };
            let challenge: u8 = if p.challenge { 0x20 } else { 0 };
            let single: u8 = if p.single_player { 4 } else { 0 };
            games.push(
                GameListEntry {
                    menu_id: MENU_GAME_LIST,
                    item_id: p.unique_id,
                    name: p.name.clone(),
                    episode: 0x40 | p.episode,
                    difficulty: 0x22 + p.difficulty,
                    players: p.num_players() as u8,
                    flags: pw | battle | challenge | single,
                },
            );
            i = i + 1;
        }
        games
    }
    /// The client leaves their lobby, if any.
    fn leave_lobby(&mut self) -> (r: Option<LobbyLeavePlan>)
        requires
            old(self).wf(),
        ensures
            final(self).wf(),
            lobby_left_in(old(self).lobby_list(), final(self).lobby_list(), old(self).client(), r),
            lobby_of(old(self).lobby_list(), old(self).client()) is None ==> *final(self) == *old(self),
            lobby_of(old(self).lobby_list(), old(self).client()) is Some ==> !holds(
                final(self).lobby_list()[lobby_of(old(self).lobby_list(), old(self).client())->0].players(),
                old(self).client(),
            ),
            final(self).party_list() == old(self).party_list(),
            final(self).counter() == old(self).counter(),
            final(self).client() == old(self).client(),
            final(self).client_table() == old(self).client_table(),
    {
        let c = self.client_id;
        match self.find_lobby(c) {
            Some(k) => {
                proof {
                    lemma_first_from(self.lobbies@, lobby_holds(c), 0);
                }
                let ghost before = self.lobbies@[k as int];
                match self.lobbies[k].remove_player(c) {
                    Ok(plan) => {
                        proof {
                            before.lemma_left_gone(&self.lobbies@[k as int], c, plan);
                        }
                        plan
                    },
                    Err(_) => {
                        assert(false);
                        None
                    },
                }
            },
            None => None,
        }
    }

    /// The client leaves their party, if any; a party left with no one to
    /// lead it is removed.
    fn leave_party(&mut self) -> (r: Option<LeavePlan>)
        requires
            old(self).wf(),
        ensures
            final(self).wf(),
            party_left_in(old(self).party_list(), final(self).party_list(), old(self).client(), r),
            party_of(old(self).party_list(), old(self).client()) is None ==> *final(self) == *old(self),
            final(self).lobby_list() == old(self).lobby_list(),
            final(self).counter() == old(self).counter(),
            final(self).client() == old(self).client(),
            final(self).client_table() == old(self).client_table(),
    {
        let c = self.client_id;
        match self.find_party(c) {
            Some(j) => {
                proof {
                    lemma_first_from(self.parties@, party_holds(c), 0);
                    lemma_slot_of(self.parties@[j as int].members(), c, 0);
                }
                assert(party_ok(self.parties@[j as int]));
                let ghost before = self.parties@;
                match self.parties[j].remove_player(c) {
                    Ok(plan) => {
                        let ghost q = self.parties@[j as int];
                        assert(before[j as int].left_as(&q, c, plan));
                        if plan.destroy {
                            self.parties.remove(j);
                            proof {
                                assert(self.parties@ =~= before.remove(j as int));
                                assert forall|i: int| 0 <= i < self.parties@.len() implies party_ok(
                                    #[trigger] self.parties@[i],
                                ) && self.parties@[i].unique_id < self.party_counter by {
                                    if i >= j {
                                        assert(self.parties@[i] == before[i + 1]);
                                    } else {
                                        assert(self.parties@[i] == before[i]);
                                    }
                                }
                                assert forall|a: int, b: int|
                                    0 <= a < self.parties@.len() && 0 <= b < self.parties@.len() && a != b implies #[trigger] self.parties@[a].unique_id
                                    != #[trigger] self.parties@[b].unique_id by {
                                    let a2 = if a >= j { a + 1 } else { a };
                                    let b2 = if b >= j { b + 1 } else { b };
                                    assert(self.parties@[a] == before[a2]);
                                    assert(self.parties@[b] == before[b2]);
                                }
                            }
                        } else {
                            proof {
                                assert(self.parties@ =~= before.update(j as int, q));
                                assert(one_burster(q.bursting()));
                                assert(party_ok(q));
                                assert forall|i: int| 0 <= i < self.parties@.len() implies party_ok(
                                    #[trigger] self.parties@[i],
                                ) by {
                                    if i != j {
                                        assert(self.parties@[i] == before[i]);
                                    }
                                }
                                assert forall|a: int, b: int|
                                    0 <= a < self.parties@.len() && 0 <= b < self.parties@.len() && a != b implies #[trigger] self.parties@[a].unique_id
                                    != #[trigger] self.parties@[b].unique_id by {
                                    assert(self.parties@[a].unique_id == before[a].unique_id);
                                    assert(self.parties@[b].unique_id == before[b].unique_id);
                                }
                            }
                        }
                        assert(self.parties@ == (if plan.destroy {
                            before.remove(j as int)
                        } else {
                            before.update(j as int, q)
                        }));
                        assert(party_left_at(before, self.parties@, j as int, c, plan));
                        Some(plan)
                    },
                    Err(_) => {
                        assert(false);
                        None
                    },
                }
            },
            None => None,
        }
    }

    /// The client leaves their party; outside a party they are refused.
    pub fn bb_player_leave_game(&mut self) -> (r: Result<LeavePlan, BlockError>)
        requires
            old(self).wf(),
        ensures
            final(self).wf(),
            party_of(old(self).party_list(), old(self).client()) is None ==> r == Err::<LeavePlan, BlockError>(
                BlockError::IllegalMessage,
            ) && *final(self) == *old(self),
            party_of(old(self).party_list(), old(self).client()) is Some ==> (r matches Ok(plan) && party_left_in(
                old(self).party_list(),
                final(self).party_list(),
                old(self).client(),
                Some(plan),
            )),
            final(self).lobby_list() == old(self).lobby_list(),
            final(self).counter() == old(self).counter(),
            final(self).client() == old(self).client(),
            final(self).client_table() == old(self).client_table(),
    {
        match self.leave_party() {
            Some(plan) => Ok(plan),
            None => Err(BlockError::IllegalMessage),
        }
    }

    /// The client disconnected: they leave their lobby and their party, the
    /// block forgets their record, and their character, if one is loaded,
    /// is to be saved under their account and the slot they chose.
    pub fn client_disconnected(&mut self) -> (r: (Option<LobbyLeavePlan>, Option<LeavePlan>, Option<CharSave>))
        requires
            old(self).wf(),
            old(self).client_table().contains_key(old(self).client()),
        ensures
            final(self).wf(),
            lobby_left_in(old(self).lobby_list(), final(self).lobby_list(), old(self).client(), r.0),
            party_left_in(old(self).party_list(), final(self).party_list(), old(self).client(), r.1),
            save_of(old(self).client_table()[old(self).client()], r.2),
            final(self).client_table() == old(self).client_table().remove(old(self).client()),
            final(self).counter() == old(self).counter(),
            final(self).client() == old(self).client(),
            in_one_lobby_at_most(old(self).lobby_list(), old(self).client()) ==> forall|k: int|
                0 <= k < final(self).lobby_list().len() ==> !holds(
                    #[trigger] final(self).lobby_list()[k].players(),
                    old(self).client(),
                ),
            in_one_party_slot_at_most(old(self).party_list(), old(self).client()) ==> forall|j: int|
                0 <= j < final(self).party_list().len() ==> !holds(
                    #[trigger] final(self).party_list()[j].members(),
                    old(self).client(),
                ),
    {
        let left_lobby = self.leave_lobby();
        let left_party = self.leave_party();
        let c = self.client_id;
        proof {
            if in_one_lobby_at_most(old(self).lobby_list(), c) {
                lemma_left_no_lobby(old(self).lobby_list(), self.lobby_list(), c, left_lobby);
            }
            if in_one_party_slot_at_most(old(self).party_list(), c) {
                lemma_left_no_party(old(self).party_list(), self.party_list(), c, left_party);
            }
        }
        let save = match self.clients.remove(&c) {
            Some(rec) => rec.into_save(),
            None => {
                assert(false);
                None
            },
        };
        (left_lobby, left_party, save)
    }

    /// The client moves to lobby `lobby` (1 to 15): they leave their lobby
    /// and join the chosen one, unless it is full or does not exist.
    pub fn bb_lobby_change(&mut self, lobby: u32) -> (r: Result<(Option<LobbyLeavePlan>, LobbyJoinPlan), BlockError>)
        requires
            old(self).wf(),
            1 <= lobby <= 15 && occupied(old(self).lobby_list()[lobby - 1].players()) < 12 ==> (!holds(
                old(self).lobby_list()[lobby - 1].players(),
                old(self).client(),
            ) || lobby_of(old(self).lobby_list(), old(self).client()) == Some(lobby - 1)),
        ensures
            final(self).wf(),
            !(1 <= lobby <= 15) ==> r == Err::<(Option<LobbyLeavePlan>, LobbyJoinPlan), BlockError>(
                BlockError::InvalidLobby,
            ) && *final(self) == *old(self),
            1 <= lobby <= 15 && occupied(old(self).lobby_list()[lobby - 1].players()) >= 12 ==> r == Err::<
                (Option<LobbyLeavePlan>, LobbyJoinPlan),
                BlockError,
            >(BlockError::LobbyFull) && *final(self) == *old(self),
            1 <= lobby <= 15 && occupied(old(self).lobby_list()[lobby - 1].players()) < 12 ==> (r matches Ok(
                (left, plan),
            ) && lobby_moved_in(old(self).lobby_list(), final(self).lobby_list(), old(self).client(), lobby - 1, left, plan)),
            final(self).party_list() == old(self).party_list(),
            final(self).counter() == old(self).counter(),
            final(self).client() == old(self).client(),
            final(self).client_table() == old(self).client_table(),
    {
        if !(1 <= lobby && lobby <= 15) {
            return Err(BlockError::InvalidLobby);
        }
        let t = (lobby - 1) as usize;
        if self.lobbies[t].is_full() {
            return Err(BlockError::LobbyFull);
        }
        let c = self.client_id;
        let ghost before = self.lobbies@;
        proof {
            lemma_first_from(before, lobby_holds(c), 0);
            before[t as int].lemma_wf();
            lemma_slot_of(before[t as int].players(), c, 0);
        }
        let left = self.leave_lobby();
        let ghost mid = self.lobbies@;
        proof {
            assert(mid[t as int].wf());
            mid[t as int].lemma_wf();
            lemma_first_empty(mid[t as int].players(), 0);
            match lobby_of(before, c) {
                Some(k) => {
                    if k == t {
                        if first_empty(mid[t as int].players()) is None {
                            if occupied(before[t as int].players()) == 1 {
                                assert(mid[t as int].players()[0] is None);
                            } else {
                                let i = slot_of(before[t as int].players(), c)->0;
                                assert(mid[t as int].players()[i] is None);
                            }
                        }
                    } else {
                        assert(mid[t as int] == before[t as int]);
                        lemma_first_empty(before[t as int].players(), 0);
                    }
                },
                None => {
                    assert(!lobby_holds(c)(before[t as int]));
                    lemma_first_empty(before[t as int].players(), 0);
                },
            }
        }
        match self.lobbies[t].add_player(c) {
            Ok(plan) => {
                assert(lobby_left_in(before, mid, c, left));
                Ok((left, plan))
            },
            Err(_) => {
                assert(false);
                Err(BlockError::LobbyFull)
            },
        }
    }
    /// Keeps the invariant after party `j` changed in a way that keeps it
    /// as [`party_ok`] says, with its ID.
    proof fn lemma_party_replaced(&self, after: &Self, j: int)
        requires
            self.wf(),
            0 <= j < self.party_list().len(),
            self.party_changed(after, j),
            party_ok(after.party_list()[j]),
            after.party_list()[j].unique_id == self.party_list()[j].unique_id,
        ensures
            after.wf(),
    {
        assert forall|i: int| 0 <= i < after.party_list().len() implies party_ok(#[trigger] after.party_list()[i])
            && after.party_list()[i].unique_id < after.counter() by {
            if i != j {
                assert(after.party_list()[i] == self.party_list()[i]);
            }
        }
        assert forall|a: int, b: int|
            0 <= a < after.party_list().len() && 0 <= b < after.party_list().len() && a != b implies #[trigger] after.party_list()[a].unique_id
            != #[trigger] after.party_list()[b].unique_id by {
            assert(after.party_list()[a].unique_id == self.party_list()[a].unique_id);
            assert(after.party_list()[b].unique_id == self.party_list()[b].unique_id);
        }
    }

    /// The client finished loading into their party: the party carries out
    /// what it held back. `None` when they are in no party.
    pub fn done_burst(&mut self) -> (r: Option<BurstDone<M>>)
        requires
            old(self).wf(),
            party_of(old(self).party_list(), old(self).client()) matches Some(j) ==> old(self).party_list()[j].burst_slot(
                old(self).client(),
            ) is Some,
        ensures
            final(self).wf(),
            party_of(old(self).party_list(), old(self).client()) is None ==> r is None && *final(self) == *old(self),
            party_of(old(self).party_list(), old(self).client()) matches Some(j) ==> (r matches Some(d) && old(
                self,
            ).party_changed(final(self), j) && old(self).party_list()[j].burst_done_as(
                &final(self).party_list()[j],
                old(self).client(),
                d,
            )),
    {
        let c = self.client_id;
        let j = match self.find_party(c) {
            Some(j) => j,
            None => return None,
        };
        let ghost old_self = *self;
        proof {
            let p = self.parties@[j as int];
            assert(party_ok(p));
            lemma_slot_of(p.members(), c, 0);
            let i = p.burst_slot(c)->0;
            assert(p.only_burster(i)) by {
                assert forall|x: int| 0 <= x < 4 && x != i implies !#[trigger] p.bursting()[x] by {
                    if p.bursting()[x] {
                        assert(p.bursting()[i]);
                    }
                }
            }
        }
        match self.parties[j].handle_bb_done_burst(c) {
            Ok(d) => {
                proof {
                    let q = self.parties@[j as int];
                    assert(one_burster(q.bursting()));
                    old_self.lemma_party_replaced(self, j as int);
                }
                Some(d)
            },
            Err(_) => {
                assert(false);
                None
            },
        }
    }

    /// Routes a 0x60 subcommand from the client: a lobby relays it to its
    /// other players; a party handles it; elsewhere it is refused.
    pub fn bb_subcmd_60(&mut self, m: SubCmd<M>) -> (r: Result<Routed<M>, BlockError>)
        requires
            old(self).wf(),
        ensures
            final(self).wf(),
            lobby_of(old(self).lobby_list(), old(self).client()) matches Some(k) ==> (r matches Ok(
                Routed::Lobby { to, msg },
            ) && to@ == recipients(old(self).lobby_list()[k].players(), Some(old(self).client())) && msg == m
                && *final(self) == *old(self)),
            lobby_of(old(self).lobby_list(), old(self).client()) is None ==> (party_of(
                old(self).party_list(),
                old(self).client(),
            ) matches Some(j) ==> (r matches Ok(Routed::Party(acts)) && old(self).party_changed(final(self), j) && old(
                self,
            ).party_list()[j].handled_as(
                &final(self).party_list()[j],
                old(self).client(),
                old(self).client(),
                Queued::Cmd60(m),
                acts@,
            ))),
            lobby_of(old(self).lobby_list(), old(self).client()) is None && party_of(
                old(self).party_list(),
                old(self).client(),
            ) is None ==> r == Err::<Routed<M>, BlockError>(BlockError::IllegalMessage) && *final(self) == *old(self),
    {
        let c = self.client_id;
        if let Some(k) = self.find_lobby(c) {
            let to = self.lobbies[k].handle_bb_subcmd_60(c);
            return Ok(Routed::Lobby { to, msg: m });
        }
        let j = match self.find_party(c) {
            Some(j) => j,
            None => return Err(BlockError::IllegalMessage),
        };
        let ghost old_self = *self;
        assert(party_ok(self.parties@[j as int]));
        let acts = self.parties[j].handle_bb_subcmd_60(c, c, m);
        proof {
            old_self.lemma_party_replaced(self, j as int);
        }
        Ok(Routed::Party(acts))
    }

    /// Routes a 0x6C subcommand like a 0x60 one.
    pub fn bb_subcmd_6c(&mut self, m: SubCmd<M>) -> (r: Result<Routed<M>, BlockError>)
        requires
            old(self).wf(),
        ensures
            final(self).wf(),
            lobby_of(old(self).lobby_list(), old(self).client()) matches Some(k) ==> (r matches Ok(
                Routed::Lobby { to, msg },
            ) && to@ == recipients(old(self).lobby_list()[k].players(), Some(old(self).client())) && msg == m
                && *final(self) == *old(self)),
            lobby_of(old(self).lobby_list(), old(self).client()) is None ==> (party_of(
                old(self).party_list(),
                old(self).client(),
            ) matches Some(j) ==> (r matches Ok(Routed::Party(acts)) && old(self).party_changed(final(self), j) && old(
                self,
            ).party_list()[j].handled_as(
                &final(self).party_list()[j],
                old(self).client(),
                old(self).client(),
                Queued::Cmd6C(m),
                acts@,
            ))),
            lobby_of(old(self).lobby_list(), old(self).client()) is None && party_of(
                old(self).party_list(),
                old(self).client(),
            ) is None ==> r == Err::<Routed<M>, BlockError>(BlockError::IllegalMessage) && *final(self) == *old(self),
    {
        let c = self.client_id;
        if let Some(k) = self.find_lobby(c) {
            let to = self.lobbies[k].handle_bb_subcmd_6c(c);
            return Ok(Routed::Lobby { to, msg: m });
        }
        let j = match self.find_party(c) {
            Some(j) => j,
            None => return Err(BlockError::IllegalMessage),
        };
        let ghost old_self = *self;
        assert(party_ok(self.parties@[j as int]));
        let acts = self.parties[j].handle_bb_subcmd_6c(c, c, m);
        proof {
            old_self.lemma_party_replaced(self, j as int);
        }
        Ok(Routed::Party(acts))
    }

    /// Routes a 0x62 subcommand for the player in slot `dest`: a lobby
    /// does not pass it on; a party handles it; elsewhere it is refused.
    pub fn bb_subcmd_62(&mut self, dest: u32, m: SubCmd<M>) -> (r: Result<Routed<M>, BlockError>)
        requires
            old(self).wf(),
            lobby_of(old(self).lobby_list(), old(self).client()) is None && party_of(
                old(self).party_list(),
                old(self).client(),
            ) is Some ==> dest < 4,
        ensures
            final(self).wf(),
            lobby_of(old(self).lobby_list(), old(self).client()) is Some ==> (r matches Ok(Routed::Lobby { to, msg })
                && to@.len() == 0 && msg == m && *final(self) == *old(self)),
            lobby_of(old(self).lobby_list(), old(self).client()) is None ==> (party_of(
                old(self).party_list(),
                old(self).client(),
            ) matches Some(j) ==> (r matches Ok(Routed::Party(acts)) && old(self).party_changed(final(self), j) && old(
                self,
            ).party_list()[j].handled_as(
                &final(self).party_list()[j],
                old(self).client(),
                old(self).client(),
                Queued::Cmd62(dest, m),
                acts@,
            ))),
            lobby_of(old(self).lobby_list(), old(self).client()) is None && party_of(
                old(self).party_list(),
                old(self).client(),
            ) is None ==> r == Err::<Routed<M>, BlockError>(BlockError::IllegalMessage) && *final(self) == *old(self),
    {
        let c = self.client_id;
        if let Some(_) = self.find_lobby(c) {
            return Ok(Routed::Lobby { to: Vec::new(), msg: m });
        }
        let j = match self.find_party(c) {
            Some(j) => j,
            None => return Err(BlockError::IllegalMessage),
        };
        let ghost old_self = *self;
        assert(party_ok(self.parties@[j as int]));
        let acts = self.parties[j].handle_bb_subcmd_62(c, c, dest, m);
        proof {
            let q = self.parties@[j as int];
            assert(queue_dispatchable(q.queue())) by {
                let q0 = old_self.parties@[j as int].queue();
                assert forall|x: int| 0 <= x < q.queue().len() implies dispatchable(#[trigger] q.queue()[x].1) by {
                    if x < q0.len() {
                        assert(q.queue()[x] == q0[x]);
                    }
                }
            }
            old_self.lemma_party_replaced(self, j as int);
        }
        Ok(Routed::Party(acts))
    }

    /// Routes a 0x6D subcommand like a 0x62 one.
    pub fn bb_subcmd_6d(&mut self, dest: u32, m: SubCmd<M>) -> (r: Result<Routed<M>, BlockError>)
        requires
            old(self).wf(),
        ensures
            final(self).wf(),
            lobby_of(old(self).lobby_list(), old(self).client()) is Some ==> (r matches Ok(Routed::Lobby { to, msg })
                && to@.len() == 0 && msg == m && *final(self) == *old(self)),
            lobby_of(old(self).lobby_list(), old(self).client()) is None ==> (party_of(
                old(self).party_list(),
                old(self).client(),
            ) matches Some(j) ==> (r matches Ok(Routed::Party(acts)) && old(self).party_changed(final(self), j) && old(
                self,
            ).party_list()[j].handled_as(
                &final(self).party_list()[j],
                old(self).client(),
                old(self).client(),
                Queued::Cmd6D(dest, m),
                acts@,
            ))),
            lobby_of(old(self).lobby_list(), old(self).client()) is None && party_of(
                old(self).party_list(),
                old(self).client(),
            ) is None ==> r == Err::<Routed<M>, BlockError>(BlockError::IllegalMessage) && *final(self) == *old(self),
    {
        let c = self.client_id;
        if let Some(_) = self.find_lobby(c) {
            return Ok(Routed::Lobby { to: Vec::new(), msg: m });
        }
        let j = match self.find_party(c) {
            Some(j) => j,
            None => return Err(BlockError::IllegalMessage),
        };
        let ghost old_self = *self;
        assert(party_ok(self.parties@[j as int]));
        let acts = self.parties[j].handle_bb_subcmd_6d(c, c, dest, m);
        proof {
            let q = self.parties@[j as int];
            assert(queue_dispatchable(q.queue())) by {
                let q0 = old_self.parties@[j as int].queue();
                assert forall|x: int| 0 <= x < q.queue().len() implies dispatchable(#[trigger] q.queue()[x].1) by {
                    if x < q0.len() {
                        assert(q.queue()[x] == q0[x]);
                    }
                }
            }
            old_self.lemma_party_replaced(self, j as int);
        }
        Ok(Routed::Party(acts))
    }
    /// Keeps the invariant after a party that keeps it as [`party_ok`]
    /// says, with the counter's old value as its ID, was added and the
    /// counter moved on.
    proof fn lemma_party_added(&self, after: &Self)
        requires
            self.wf(),
            self.counter() < u32::MAX,
            after.lobby_list() == self.lobby_list(),
            after.counter() == self.counter() + 1,
            after.party_list().len() == self.party_list().len() + 1,
            after.party_list().drop_last() == self.party_list(),
            party_ok(after.party_list().last()),
            after.party_list().last().unique_id == self.counter(),
        ensures
            after.wf(),
    {
        let n = self.party_list().len() as int;
        assert forall|i: int| 0 <= i < after.party_list().len() implies party_ok(#[trigger] after.party_list()[i])
            && after.party_list()[i].unique_id < after.counter() by {
            if i < n {
                assert(after.party_list()[i] == after.party_list().drop_last()[i]);
            }
        }
        assert forall|a: int, b: int|
            0 <= a < after.party_list().len() && 0 <= b < after.party_list().len() && a != b implies #[trigger] after.party_list()[a].unique_id
            != #[trigger] after.party_list()[b].unique_id by {
            if a < n {
                assert(after.party_list()[a] == self.party_list()[a]);
            }
            if b < n {
                assert(after.party_list()[b] == self.party_list()[b]);
            }
        }
    }

    /// The client creates party `m` and joins it, leaving their lobby. The
    /// party's section ID is the client's `chara_section`, and the join
    /// tells them `char_section`. A single-player party is laid out with
    /// `offline` maps, any other with `online` ones; it gets the lobby's
    /// event. The result tells who is told of the client leaving the lobby,
    /// and of the join or of the refusal.
    pub fn bb_create_game(
        &mut self,
        m: &CreateGame,
        chara_section: u8,
        char_section: u8,
        online: &Areas,
        offline: &Areas,
    ) -> (r: (Option<LobbyLeavePlan>, Result<JoinPlan, BlockError>))
        requires
            old(self).wf(),
            old(self).creates(*m) ==> old(self).counter() < u32::MAX && episode_ready(
                if m.single_player > 0 {
                    *offline
                } else {
                    *online
                },
                m.episode,
            ),
        ensures
            final(self).wf(),
            final(self).client() == old(self).client(),
            final(self).client_table() == old(self).client_table(),
            old(self).create_refusal(*m) matches Some(e) ==> r.0 is None && r.1 == Err::<JoinPlan, BlockError>(e)
                && *final(self) == *old(self),
            old(self).create_refusal(*m) is None ==> lobby_left_in(
                old(self).lobby_list(),
                final(self).lobby_list(),
                old(self).client(),
                r.0,
            ),
            old(self).create_refusal(*m) is None && old(self).lobby_event() == 0xFFFF ==> r.1 == Err::<
                JoinPlan,
                BlockError,
            >(BlockError::IllegalMessage) && final(self).party_list() == old(self).party_list() && final(self).counter()
                == old(self).counter(),
            old(self).creates(*m) ==> (r.1 matches Ok(plan) && {
                &&& final(self).counter() == old(self).counter() + 1
                &&& final(self).party_list().len() == old(self).party_list().len() + 1
                &&& final(self).party_list().drop_last() == old(self).party_list()
                &&& party_created(
                    final(self).party_list().last(),
                    *m,
                    old(self).lobby_event(),
                    if m.single_player > 0 {
                        *offline
                    } else {
                        *online
                    },
                    old(self).counter(),
                    old(self).client(),
                    chara_section,
                    char_section,
                    plan,
                )
            }),
    {
        let c = self.client_id;
        if let Some(_) = self.find_party_named(&m.name) {
            return (None, Err(BlockError::PartyNameTaken));
        }
        if m.challenge != 0 && m.episode == 3 {
            return (None, Err(BlockError::ChallengeOnEpisode4));
        }
        if m.battle != 0 {
            return (None, Err(BlockError::BattleUnsupported));
        }
        if m.challenge != 0 {
            return (None, Err(BlockError::ChallengeUnsupported));
        }
        let k = match self.find_lobby(c) {
            Some(k) => k,
            None => return (None, Err(BlockError::IllegalMessage)),
        };
        let event = self.lobbies[k].event_num();
        let left = self.leave_lobby();
        if event == 0xFFFF {
            return (left, Err(BlockError::IllegalMessage));
        }
        let ghost mid = *self;
        let unique_id = self.party_counter;
        self.party_counter = self.party_counter + 1;
        let pass: Option<&str> = if m.password.as_str().is_empty() {
            None
        } else {
            Some(m.password.as_str())
        };
        let maps = if m.single_player > 0 {
            offline
        } else {
            online
        };
        let mut p: Party<M> = Party::new(
            m.name.as_str(),
            pass,
            m.episode,
            m.difficulty,
            m.battle != 0,
            m.challenge != 0,
            m.single_player > 0,
            event,
            maps,
            unique_id,
        );
        let ghost fresh = p;
        assert(first_empty(p.members()) == Some(0int));
        let plan = match p.add_player(c, chara_section, char_section) {
            Ok(plan) => plan,
            Err(_) => {
                assert(false);
                return (left, Err(BlockError::IllegalMessage));
            },
        };
        proof {
            assert(p.bursting() =~= seq![true, false, false, false]);
            assert(one_burster(p.bursting()));
            assert(queue_dispatchable(p.queue()));
        }
        self.parties.push(p);
        proof {
            assert(self.parties@.drop_last() =~= mid.parties@);
            mid.lemma_party_added(self);
            assert(party_created(self.parties@.last(), *m, event, *maps, unique_id, c, chara_section, char_section, plan))
                by {
                assert(fresh.joined_as(&self.parties@.last(), c, chara_section, char_section, plan));
            }
        }
        (left, Ok(plan))
    }

    /// The client joins party `item_id` from menu `menu_id`, leaving their
    /// lobby. The party's section ID, if it has none yet, becomes their
    /// `chara_section`; the join tells them the party's, or
    /// `char_section`. The client is sent the error message of the result
    /// after the join too.
    pub fn menu_select(
        &mut self,
        menu_id: u32,
        item_id: u32,
        chara_section: u8,
        char_section: u8,
    ) -> (r: (Option<(Option<LobbyLeavePlan>, JoinPlan)>, BlockError))
        requires
            old(self).wf(),
        ensures
            final(self).wf(),
            old(self).join_refusal(menu_id, item_id) matches Some(e) ==> r.0 is None && r.1 == e && *final(self) == *old(
                self,
            ),
            old(self).join_refusal(menu_id, item_id) is None ==> r.1 == BlockError::PartyGone,
            old(self).join_refusal(menu_id, item_id) is None ==> (r.0 matches Some((left, plan)) && {
                let j = first_from(old(self).party_list(), party_with_id(item_id), 0)->0;
                &&& lobby_left_in(old(self).lobby_list(), final(self).lobby_list(), old(self).client(), left)
                &&& final(self).party_list() == old(self).party_list().update(j, final(self).party_list()[j])
                &&& old(self).party_list()[j].joined_as(
                    &final(self).party_list()[j],
                    old(self).client(),
                    chara_section,
                    char_section,
                    plan,
                )
                &&& final(self).counter() == old(self).counter()
                &&& final(self).client() == old(self).client()
                &&& final(self).client_table() == old(self).client_table()
            }),
    {
        if menu_id != MENU_GAME_LIST {
            return (None, BlockError::InvalidMenu);
        }
        let j = match self.find_party_id(item_id) {
            Some(j) => j,
            None => return (None, BlockError::PartyGone),
        };
        assert(party_ok(self.parties@[j as int]));
        if self.parties[j].is_bursting() {
            return (None, BlockError::PlayerBursting);
        }
        if self.parties[j].player_limit() == 1 {
            return (None, BlockError::OnePersonOnly);
        }
        if self.parties[j].is_full() {
            return (None, BlockError::PartyFull);
        }
        let c = self.client_id;
        let left = self.leave_lobby();
        let ghost mid = *self;
        proof {
            let p = self.parties@[j as int];
            lemma_first_empty(p.members(), 0);
        }
        match self.parties[j].add_player(c, chara_section, char_section) {
            Ok(plan) => {
                proof {
                    let p0 = mid.parties@[j as int];
                    let q = self.parties@[j as int];
                    let i = first_empty(p0.members())->0;
                    assert forall|x: int, y: int|
                        0 <= x < q.bursting().len() && 0 <= y < q.bursting().len() && #[trigger] q.bursting()[x]
                            && #[trigger] q.bursting()[y] implies x == y by {
                        if x != i {
                            assert(p0.bursting()[x]);
                        }
                        if y != i {
                            assert(p0.bursting()[y]);
                        }
                    }
                    mid.lemma_party_replaced(self, j as int);
                }
                (Some((left, plan)), BlockError::PartyGone)
            },
            Err(_) => {
                assert(false);
                (None, BlockError::PartyGone)
            },
        }
    }
    /// Checks the security data a client logs in to the block with: only a
    /// client with a session (set up by the login server) may; any other is
    /// told so and disconnected.
    pub fn bb_login(&self, offered: SecurityData) -> (r: Result<(), String>)
        ensures
            offered.magic == SESSION_MAGIC ==> r is Ok,
            offered.magic != SESSION_MAGIC ==> (r matches Err(s) && s@ == "Invalid security data"@),
    {
        if offered.magic != SESSION_MAGIC {
            return Err(String::from_str("Invalid security data"));
        }
        Ok(())
    }

    /// The shipgate answered the block's login challenge with `status`: a
    /// status other than 0 refuses the login (the reply carries the status
    /// and the client's security data; the client is then disconnected);
    /// else the account `account_id` is fetched.
    pub fn sg_login_challenge_ack(&self, offered: SecurityData, status: u32, account_id: u32) -> (r: ChallengeStep)
        ensures
            status != 0 ==> r == ChallengeStep::Refuse(
                SecurityReply { err_code: status, tag: 0, guildcard: 0, team_id: 0, security_data: offered, caps: 0 },
            ),
            status == 0 ==> r == ChallengeStep::FetchAccount(account_id),
    {
        if status != 0 {
            ChallengeStep::Refuse(
                SecurityReply { err_code: status, tag: 0, guildcard: 0, team_id: 0, security_data: offered, caps: 0 },
            )
        } else {
            ChallengeStep::FetchAccount(account_id)
        }
    }

    /// The shipgate sent the account data: the client is sent the accepted
    /// reply with their security data, the block records their security
    /// data, team, guild card and account, and their character, account
    /// `account_id`'s in the slot they chose, is fetched.
    pub fn sg_account_info_ack(&mut self, offered: SecurityData, guildcard: u32, team_id: u32, account_id: u32) -> (r: (
        SecurityReply,
        u32,
        u8,
    ))
        requires
            old(self).client_table().contains_key(old(self).client()),
        ensures
            r == (accepted_reply(guildcard, offered), account_id, offered.slot),
            final(self).client_table() == account_recorded(
                old(self).client_table(),
                old(self).client(),
                offered,
                guildcard,
                team_id,
                account_id,
            ),
            final(self).lobby_list() == old(self).lobby_list(),
            final(self).party_list() == old(self).party_list(),
            final(self).counter() == old(self).counter(),
            final(self).client() == old(self).client(),
    {
        let c = self.client_id;
        match self.clients.remove(&c) {
            Some(rec) => {
                let updated = BlockClient {
                    sec_data: offered,
                    team_id,
                    bb_guildcard: guildcard,
                    account_id,
                    full_char: rec.full_char,
                };
                self.clients.insert(c, updated);
                proof {
                    assert(self.clients@ =~= old(self).clients@.insert(c, updated));
                }
            },
            None => {
                assert(false);
            },
        }
        (
            SecurityReply {
                err_code: 0,
                tag: 0x0001_0000,
                guildcard,
                team_id: 0xFFFF_FFFF,
                security_data: offered,
                caps: 0x0000_0101,
            },
            account_id,
            offered.slot,
        )
    }

    /// The shipgate answered the character request with `status`, and a
    /// character or not: an error or a missing character disconnects the
    /// client with a message; else the block records the character and the
    /// client is sent the lobby list: lobbies 1 to 15 of menu 60, then an
    /// end entry.
    pub fn sg_get_character_ack(&mut self, status: u32, full_char: Option<FullChar>) -> (r: Result<Vec<(u32, u32)>, String>)
        requires
            status == 0 && full_char is Some ==> old(self).client_table().contains_key(old(self).client()),
        ensures
            status != 0 ==> (r matches Err(s) && s@ == "Shipgate error retrieving character"@),
            status == 0 && full_char is None ==> (r matches Err(s) && s@ == "Illegal state. Character in slot is missing."@),
            status == 0 && full_char is Some ==> (r matches Ok(l) && l@.len() == 16 && (forall|i: int|
                0 <= i < 15 ==> #[trigger] l@[i] == (60u32, (i + 1) as u32)) && l@[15] == (0u32, 0u32)),
            status == 0 && full_char is Some ==> final(self).client_table() == char_recorded(
                old(self).client_table(),
                old(self).client(),
                full_char->0,
            ),
            !(status == 0 && full_char is Some) ==> final(self).client_table() == old(self).client_table(),
            final(self).lobby_list() == old(self).lobby_list(),
            final(self).party_list() == old(self).party_list(),
            final(self).counter() == old(self).counter(),
            final(self).client() == old(self).client(),
    {
        if status != 0 {
            return Err(String::from_str("Shipgate error retrieving character"));
        }
        if full_char.is_none() {
            return Err(String::from_str("Illegal state. Character in slot is missing."));
        }
        let mut list: Vec<(u32, u32)> = Vec::new();
        let mut i: u32 = 1;
        while i <= 15
            invariant
                1 <= i <= 16,
                list@.len() == i - 1,
                forall|j: int| 0 <= j < i - 1 ==> #[trigger] list@[j] == (60u32, (j + 1) as u32),
            decreases 16 - i,
        {
            list.push((60, i));
            i = i + 1;
        }
        list.push((0, 0));
        let c = self.client_id;
        match self.clients.remove(&c) {
            Some(rec) => {
                let updated = BlockClient { full_char, ..rec };
                self.clients.insert(c, updated);
                proof {
                    assert(self.clients@ =~= old(self).clients@.insert(c, updated));
                }
            },
            None => {
                assert(false);
            },
        }
        Ok(list)
    }

    /// The client sent their character to be saved: where one is loaded,
    /// its inventory, character data and bank are replaced by the ones sent
    /// and the result is true; where none is, nothing changes and the
    /// result is false.
    pub fn bb_full_char(&mut self, inv: Vec<u8>, chara: Vec<u8>, bank: Vec<u8>) -> (r: bool)
        requires
            old(self).client_table().contains_key(old(self).client()),
        ensures
            r == old(self).client_table()[old(self).client()].full_char is Some,
            !r ==> final(self).client_table() == old(self).client_table(),
            r ==> final(self).client_table() == old(self).client_table().insert(
                old(self).client(),
                (BlockClient {
                    full_char: Some(
                        (FullChar {
                            inv,
                            chara,
                            bank,
                            other: old(self).client_table()[old(self).client()].full_char->0.other,
                        }),
                    ),
                    ..old(self).client_table()[old(self).client()]
                }),
            ),
            final(self).lobby_list() == old(self).lobby_list(),
            final(self).party_list() == old(self).party_list(),
            final(self).counter() == old(self).counter(),
            final(self).client() == old(self).client(),
    {
        let c = self.client_id;
        match self.clients.remove(&c) {
            Some(rec) => {
                match rec.full_char {
                    Some(fc) => {
                        let updated = BlockClient {
                            full_char: Some(FullChar { inv, chara, bank, other: fc.other }),
                            ..rec
                        };
                        self.clients.insert(c, updated);
                        proof {
                            assert(self.clients@ =~= old(self).clients@.insert(c, updated));
                        }
                        true
                    },
                    None => {
                        let same = BlockClient { full_char: None, ..rec };
                        self.clients.insert(c, same);
                        proof {
                            assert(self.clients@ =~= old(self).clients@);
                        }
                        false
                    },
                }
            },
            None => {
                assert(false);
                false
            },
        }
    }

    /// The client changed their general options: the shipgate is to store
    /// `options` for the client's account; the result is the account and
    /// the options.
    pub fn bb_update_options(&self, options: u32) -> (r: (u32, u32))
        requires
            self.client_table().contains_key(self.client()),
        ensures
            r == (self.client_table()[self.client()].account_id, options),
    {
        (self.account_of_client(), options)
    }

    /// The client changed their key configuration: the shipgate is to store
    /// it for the client's account; the result is the account and the
    /// configuration.
    pub fn bb_update_keys(&self, key_config: Vec<u8>) -> (r: (u32, Vec<u8>))
        requires
            self.client_table().contains_key(self.client()),
        ensures
            r.0 == self.client_table()[self.client()].account_id,
            r.1@ == key_config@,
    {
        (self.account_of_client(), key_config)
    }

    /// The client changed their joystick configuration: the shipgate is to
    /// store it for the client's account; the result is the account and the
    /// configuration.
    pub fn bb_update_joy(&self, joy_config: Vec<u8>) -> (r: (u32, Vec<u8>))
        requires
            self.client_table().contains_key(self.client()),
        ensures
            r.0 == self.client_table()[self.client()].account_id,
            r.1@ == joy_config@,
    {
        (self.account_of_client(), joy_config)
    }

    /// The account of the client being served.
    fn account_of_client(&self) -> (r: u32)
        requires
            self.client_table().contains_key(self.client()),
        ensures
            r == self.client_table()[self.client()].account_id,
    {
        match self.clients.get(&self.client_id) {
            Some(rec) => rec.account_id,
            None => {
                assert(false);
                0
            },
        }
    }

    /// The record of client `id`, if they are connected.
    pub fn client_record(&self, id: usize) -> (r: Option<&BlockClient>)
        ensures
            self.client_table().contains_key(id) ==> r == Some(&self.client_table()[id]),
            !self.client_table().contains_key(id) ==> r is None,
    {
        self.clients.get(&id)
    }
}

} // verus!
