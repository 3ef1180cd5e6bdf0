use idola::block::client::FullChar;
use idola::block::handler::{BlockError, BlockHandler, CreateGame, Routed, MENU_GAME_LIST};
use idola::block::partyhandler::{PartyAction, SubCmd, SubCmdKind};
use idola::login::handler::{ChallengeStep, SecurityData, SecurityReply};
use idola::maps::{Areas, Ep1Areas, Ep2Areas, Ep4Areas, KeyedVariation, MapEnemy, VariationData};

fn enemy(base: u32, skin: u32) -> MapEnemy {
    MapEnemy { base, num_clones: 0, skin, reserved2: [0; 11] }
}

fn var(enemies: Vec<MapEnemy>) -> VariationData {
    VariationData { enemies }
}

fn keyed(major: u32, minor: u32) -> KeyedVariation {
    KeyedVariation { major, minor, data: var(vec![]) }
}

fn areas() -> Areas {
    Areas {
        ep1: Ep1Areas {
            city: var(vec![]),
            forest1: vec![var(vec![enemy(0x40, 0), enemy(0x44, 1)])],
            forest2: vec![var(vec![])],
            cave1: vec![keyed(0, 0)],
            cave2: vec![keyed(0, 0)],
            cave3: vec![keyed(0, 0)],
            machine1: vec![keyed(0, 0)],
            machine2: vec![keyed(0, 0)],
            ancient1: vec![keyed(0, 0)],
            ancient2: vec![keyed(0, 0)],
            ancient3: vec![keyed(0, 0)],
            boss1: var(vec![]),
            boss2: var(vec![]),
            boss3: var(vec![]),
            boss4: var(vec![]),
        },
        ep2: Ep2Areas {
            city: var(vec![]),
            ruins1: vec![keyed(0, 0)],
            ruins2: vec![keyed(0, 0)],
            space1: vec![keyed(0, 0)],
            space2: vec![keyed(0, 0)],
            jungle1: vec![var(vec![])],
            jungle2: vec![var(vec![])],
            jungle3: vec![var(vec![])],
            jungle4: vec![keyed(0, 0)],
            jungle5: vec![var(vec![])],
            seabed1: vec![keyed(0, 0)],
            seabed2: vec![keyed(0, 0)],
            boss5: var(vec![]),
            boss6: var(vec![]),
            boss7: var(vec![]),
            boss8: var(vec![]),
        },
        ep4: Ep4Areas {
            city: var(vec![]),
            wilds1: vec![var(vec![])],
            wilds2: vec![var(vec![])],
            wilds3: vec![var(vec![])],
            wilds4: vec![var(vec![])],
            crater: vec![var(vec![])],
            desert1: vec![var(vec![])],
            desert2: vec![var(vec![])],
            desert3: vec![var(vec![])],
            boss9: var(vec![]),
        },
    }
}

fn create(name: &str, password: &str, episode: u8) -> CreateGame {
    CreateGame {
        name: name.to_string(),
        password: password.to_string(),
        episode,
        difficulty: 1,
        battle: 0,
        challenge: 0,
        single_player: 0,
    }
}

fn cmd(kind: SubCmdKind, msg: u32) -> SubCmd<u32> {
    SubCmd { kind, msg }
}

fn block_with(clients: &[usize]) -> BlockHandler<u32> {
    let mut h: BlockHandler<u32> = BlockHandler::new(1, 0);
    for &c in clients {
        h.client_connected(c);
        h.serve(c);
        h.bb_char_dat().unwrap();
    }
    h
}

#[test]
fn new_block_has_fifteen_empty_lobbies() {
    let h: BlockHandler<u32> = BlockHandler::new(2, 5);
    for k in 0..15usize {
        let l = h.lobby(k);
        assert!(l.is_empty());
        assert_eq!(l.lobby_num(), k as u8);
        assert_eq!(l.block_num(), 2);
        assert_eq!(l.event_num(), 5);
    }
    assert_eq!(h.num_parties(), 0);
    assert_eq!(h.client_id(), 0);
}

#[test]
fn clients_fill_the_first_lobby_then_the_next() {
    let clients: Vec<usize> = (0..12).collect();
    let mut h = block_with(&clients);
    assert!(h.lobby(0).is_full());
    h.serve(100);
    let plan = h.bb_char_dat().unwrap();
    assert_eq!(plan.lobby_num, 1);
    assert_eq!(plan.client_id, 0);
    assert_eq!(h.find_lobby(100), Some(1));
    assert_eq!(h.find_lobby(5), Some(0));
}

#[test]
fn all_lobbies_full_refuses() {
    let clients: Vec<usize> = (0..180).collect();
    let mut h = block_with(&clients);
    assert_eq!(h.find_open_lobby(), None);
    h.serve(1000);
    let e = h.bb_char_dat().err().unwrap();
    assert_eq!(e, BlockError::AllLobbiesFull);
    assert!(e.is_fatal());
    assert_eq!(e.text(), "\tEAll lobbies on this block are full. Please try again.");
}

#[test]
fn lobby_change_moves_the_client() {
    let mut h = block_with(&[1, 2]);
    h.serve(1);
    let (left, plan) = h.bb_lobby_change(3).unwrap();
    let left = left.unwrap();
    assert_eq!(left.notify, vec![2]);
    assert_eq!(plan.lobby_num, 2);
    assert_eq!(h.find_lobby(1), Some(2));
    assert!(!h.lobby(0).has_player(1));
    assert!(h.lobby(0).has_player(2));
}

#[test]
fn lobby_change_refusals() {
    let clients: Vec<usize> = (0..13).collect();
    let mut h = block_with(&clients);
    h.serve(12);
    assert_eq!(h.bb_lobby_change(1).err(), Some(BlockError::LobbyFull));
    assert_eq!(h.bb_lobby_change(0).err(), Some(BlockError::InvalidLobby));
    assert_eq!(h.bb_lobby_change(16).err(), Some(BlockError::InvalidLobby));
    assert!(BlockError::InvalidLobby.is_fatal());
    assert!(!BlockError::LobbyFull.is_fatal());
    assert_eq!(BlockError::LobbyFull.text(), "\tELobby is full.");
    assert_eq!(h.find_lobby(12), Some(1));
}

#[test]
fn chat_reaches_the_whole_lobby() {
    let mut h = block_with(&[1, 2, 3]);
    h.serve(2);
    assert_eq!(h.bb_chat(), Some(vec![1, 2, 3]));
    h.serve(9);
    assert_eq!(h.bb_chat(), None);
}

#[test]
fn create_game_moves_creator_into_new_party() {
    let maps = areas();
    let mut h = block_with(&[1, 2]);
    h.serve(1);
    let (left, joined) = h.bb_create_game(&create("\tEfun", "", 1), 4, 5, &maps, &maps);
    assert_eq!(left.unwrap().notify, vec![2]);
    let plan = joined.unwrap();
    assert_eq!((plan.client_id, plan.leader_id, plan.section, plan.episode, plan.difficulty), (0, 0, 5, 1, 1));
    assert_eq!(h.num_parties(), 1);
    assert_eq!(h.party(0).unique_id, 0);
    assert_eq!(h.party(0).password, None);
    assert_eq!(h.find_lobby(1), None);
    assert_eq!(h.find_party(1), Some(0));
    assert_eq!(h.bb_game_name(), Ok("\tEfun".to_string()));
}

#[test]
fn create_game_refusals() {
    let maps = areas();
    let mut h = block_with(&[1, 2]);
    h.serve(1);
    h.bb_create_game(&create("\tEfun", "", 1), 0, 0, &maps, &maps).1.unwrap();
    h.serve(2);
    let (l, r) = h.bb_create_game(&create("\tEfun", "", 2), 0, 0, &maps, &maps);
    assert!(l.is_none());
    assert_eq!(r.err(), Some(BlockError::PartyNameTaken));
    let mut m = create("\tEother", "", 3);
    m.challenge = 1;
    assert_eq!(h.bb_create_game(&m, 0, 0, &maps, &maps).1.err(), Some(BlockError::ChallengeOnEpisode4));
    let mut m = create("\tEother", "", 1);
    m.battle = 1;
    assert_eq!(h.bb_create_game(&m, 0, 0, &maps, &maps).1.err(), Some(BlockError::BattleUnsupported));
    let mut m = create("\tEother", "", 1);
    m.challenge = 1;
    assert_eq!(h.bb_create_game(&m, 0, 0, &maps, &maps).1.err(), Some(BlockError::ChallengeUnsupported));
    h.serve(77);
    assert_eq!(
        h.bb_create_game(&create("\tEother", "", 1), 0, 0, &maps, &maps).1.err(),
        Some(BlockError::IllegalMessage)
    );
    assert_eq!(h.num_parties(), 1);
}

#[test]
fn game_list_describes_each_party() {
    let maps = areas();
    let mut h = block_with(&[1, 2]);
    h.serve(1);
    h.bb_create_game(&create("\tEa", "secret", 2), 0, 0, &maps, &maps).1.unwrap();
    h.serve(2);
    let mut m = create("\tEb", "", 1);
    m.single_player = 1;
    m.difficulty = 3;
    h.bb_create_game(&m, 0, 0, &maps, &maps).1.unwrap();
    let list = h.bb_game_list();
    assert_eq!(list.len(), 3);
    assert_eq!((list[0].menu_id, list[0].item_id, list[0].flags), (MENU_GAME_LIST, 0xFFFF_FFFF, 4));
    assert_eq!(list[0].name, "");
    assert_eq!((list[1].item_id, list[1].episode, list[1].difficulty, list[1].players, list[1].flags), (0, 0x42, 0x23, 1, 2));
    assert_eq!(list[1].name, "\tEa");
    assert_eq!((list[2].item_id, list[2].episode, list[2].difficulty, list[2].players, list[2].flags), (1, 0x41, 0x25, 1, 4));
}

#[test]
fn menu_select_joins_and_refuses() {
    let maps = areas();
    let mut h = block_with(&[1, 2, 3]);
    h.serve(1);
    h.bb_create_game(&create("\tEa", "", 1), 0, 0, &maps, &maps).1.unwrap();
    h.serve(2);
    // The creator is still loading.
    let (j, e) = h.menu_select(MENU_GAME_LIST, 0, 0, 0);
    assert!(j.is_none());
    assert_eq!(e, BlockError::PlayerBursting);
    h.serve(1);
    h.done_burst().unwrap();
    h.serve(2);
    let (j, e) = h.menu_select(MENU_GAME_LIST, 0, 0, 0);
    let (left, plan) = j.unwrap();
    assert_eq!(left.unwrap().notify, vec![3]);
    assert_eq!((plan.client_id, plan.count), (1, 2));
    assert_eq!(e, BlockError::PartyGone);
    assert_eq!(e.text(), "\tEParty no longer\texists.");
    h.serve(3);
    assert_eq!(h.menu_select(MENU_GAME_LIST, 9, 0, 0).1, BlockError::PartyGone);
    assert_eq!(h.menu_select(1, 0, 0, 0).1, BlockError::InvalidMenu);
    assert_eq!(h.find_lobby(3), Some(0));
}

#[test]
fn menu_select_refuses_single_player_and_full_parties() {
    let maps = areas();
    let clients: Vec<usize> = (1..7).collect();
    let mut h = block_with(&clients);
    h.serve(1);
    let mut m = create("\tEsolo", "", 1);
    m.single_player = 1;
    h.bb_create_game(&m, 0, 0, &maps, &maps).1.unwrap();
    h.done_burst().unwrap();
    h.serve(2);
    h.bb_create_game(&create("\tEfour", "", 1), 0, 0, &maps, &maps).1.unwrap();
    h.done_burst().unwrap();
    for c in 3..6usize {
        h.serve(c);
        let (j, _) = h.menu_select(MENU_GAME_LIST, 1, 0, 0);
        assert!(j.is_some());
        h.done_burst().unwrap();
    }
    h.serve(6);
    assert_eq!(h.menu_select(MENU_GAME_LIST, 0, 0, 0).1, BlockError::OnePersonOnly);
    assert_eq!(h.menu_select(MENU_GAME_LIST, 1, 0, 0).1, BlockError::PartyFull);
}

#[test]
fn leaving_last_removes_the_party() {
    let maps = areas();
    let mut h = block_with(&[1]);
    h.serve(1);
    h.bb_create_game(&create("\tEa", "", 1), 0, 0, &maps, &maps).1.unwrap();
    let plan = h.bb_player_leave_game().unwrap();
    assert!(plan.destroy);
    assert_eq!(h.num_parties(), 0);
    assert_eq!(h.bb_player_leave_game().err(), Some(BlockError::IllegalMessage));
    assert_eq!(h.bb_game_name().err(), Some(BlockError::NotInParty));
    assert_eq!(BlockError::NotInParty.text(), "\tEIllegal message.");
}

#[test]
fn party_ids_stay_unique_after_removal() {
    let maps = areas();
    let mut h = block_with(&[1, 2]);
    h.serve(1);
    h.bb_create_game(&create("\tEa", "", 1), 0, 0, &maps, &maps).1.unwrap();
    h.bb_player_leave_game().unwrap();
    h.serve(2);
    h.bb_create_game(&create("\tEb", "", 1), 0, 0, &maps, &maps).1.unwrap();
    assert_eq!(h.party(0).unique_id, 1);
}

#[test]
fn disconnect_leaves_lobby_and_party() {
    let maps = areas();
    let mut h = block_with(&[1, 2]);
    h.serve(1);
    h.bb_create_game(&create("\tEa", "", 1), 0, 0, &maps, &maps).1.unwrap();
    let (l, p, save) = h.client_disconnected();
    assert!(l.is_none());
    assert!(p.unwrap().destroy);
    assert!(save.is_none());
    assert!(h.client_record(1).is_none());
    assert_eq!(h.num_parties(), 0);
    h.serve(2);
    let (l, p, save) = h.client_disconnected();
    assert!(l.is_none());
    assert!(p.is_none());
    assert!(save.is_none());
    assert!(h.lobby(0).is_empty());
}

#[test]
fn subcommands_route_by_place() {
    let maps = areas();
    let mut h = block_with(&[1, 2, 3]);
    h.serve(1);
    match h.bb_subcmd_60(cmd(SubCmdKind::Other, 5)).unwrap() {
        Routed::Lobby { to, msg } => {
            assert_eq!(to, vec![2, 3]);
            assert_eq!(msg.msg, 5);
        },
        _ => panic!("expected a lobby relay"),
    }
    match h.bb_subcmd_62(2, cmd(SubCmdKind::Other, 6)).unwrap() {
        Routed::Lobby { to, .. } => assert!(to.is_empty()),
        _ => panic!("expected a lobby relay"),
    }
    h.bb_create_game(&create("\tEa", "", 1), 0, 0, &maps, &maps).1.unwrap();
    h.done_burst().unwrap();
    h.serve(2);
    h.menu_select(MENU_GAME_LIST, 0, 0, 0).0.unwrap();
    h.done_burst().unwrap();
    match h.bb_subcmd_6c(cmd(SubCmdKind::Other, 7)).unwrap() {
        Routed::Party(acts) => {
            assert_eq!(acts.len(), 1);
            match &acts[0] {
                PartyAction::Broadcast { to, .. } => assert_eq!(to, &vec![1]),
                _ => panic!("expected a broadcast"),
            }
        },
        _ => panic!("expected party handling"),
    }
    match h.bb_subcmd_6d(0, cmd(SubCmdKind::Other, 8)).unwrap() {
        Routed::Party(acts) => match &acts[0] {
            PartyAction::Send { to, .. } => assert_eq!(*to, 1),
            _ => panic!("expected a send"),
        },
        _ => panic!("expected party handling"),
    }
    h.serve(50);
    assert_eq!(h.bb_subcmd_60(cmd(SubCmdKind::Other, 9)).err(), Some(BlockError::IllegalMessage));
}

#[test]
fn block_login_steps() {
    let mut h: BlockHandler<u32> = BlockHandler::new(1, 0);
    h.client_connected(7);
    h.serve(7);
    let sec = SecurityData { magic: 0xCAFE_B00B, slot: 2, sel_char: 1 };
    assert!(h.bb_login(sec).is_ok());
    let bad = SecurityData { magic: 0, slot: 0, sel_char: 0 };
    assert_eq!(h.bb_login(bad).err(), Some("Invalid security data".to_string()));
    assert_eq!(
        h.sg_login_challenge_ack(sec, 3, 9),
        ChallengeStep::Refuse(SecurityReply { err_code: 3, tag: 0, guildcard: 0, team_id: 0, security_data: sec, caps: 0 })
    );
    assert_eq!(h.sg_login_challenge_ack(sec, 0, 9), ChallengeStep::FetchAccount(9));
    let (reply, account, slot) = h.sg_account_info_ack(sec, 42000000, 5, 9);
    assert_eq!(
        reply,
        SecurityReply { err_code: 0, tag: 0x10000, guildcard: 42000000, team_id: 0xFFFF_FFFF, security_data: sec, caps: 0x101 }
    );
    assert_eq!((account, slot), (9, 2));
    let rec = h.client_record(7).unwrap();
    assert_eq!((rec.team_id, rec.bb_guildcard, rec.account_id, rec.sec_data), (5, 42000000, 9, sec));
    assert!(rec.full_char.is_none());
    assert_eq!(h.sg_get_character_ack(1, Some(character(1))).err(), Some("Shipgate error retrieving character".to_string()));
    assert_eq!(
        h.sg_get_character_ack(0, None).err(),
        Some("Illegal state. Character in slot is missing.".to_string())
    );
    assert!(h.client_record(7).unwrap().full_char.is_none());
    let lobbies = h.sg_get_character_ack(0, Some(character(1))).unwrap();
    assert_eq!(lobbies.len(), 16);
    assert_eq!(lobbies[0], (60, 1));
    assert_eq!(lobbies[14], (60, 15));
    assert_eq!(lobbies[15], (0, 0));
    assert_eq!(h.client_record(7).unwrap().full_char.as_ref().unwrap().inv, vec![1]);
}

fn character(b: u8) -> FullChar {
    FullChar { inv: vec![b], chara: vec![b, b], bank: vec![b, b, b], other: vec![9] }
}

#[test]
fn disconnect_saves_loaded_character() {
    let mut h: BlockHandler<u32> = BlockHandler::new(1, 0);
    h.client_connected(3);
    h.serve(3);
    let sec = SecurityData { magic: 0xCAFE_B00B, slot: 2, sel_char: 1 };
    h.sg_account_info_ack(sec, 42000000, 0, 77);
    h.sg_get_character_ack(0, Some(character(1))).unwrap();
    h.bb_char_dat().unwrap();
    assert!(h.bb_full_char(vec![4], vec![5], vec![6]));
    let (l, p, save) = h.client_disconnected();
    assert!(l.is_none());
    assert!(p.is_none());
    let save = save.unwrap();
    assert_eq!((save.account_id, save.slot, save.save_acct_data), (77, 2, 0));
    assert_eq!(save.full_char.inv, vec![4]);
    assert_eq!(save.full_char.chara, vec![5]);
    assert_eq!(save.full_char.bank, vec![6]);
    assert_eq!(save.full_char.other, vec![9]);
    assert!(h.client_record(3).is_none());
    assert!(h.lobby(0).is_empty());
}

#[test]
fn full_char_without_loaded_character_is_ignored() {
    let mut h: BlockHandler<u32> = BlockHandler::new(1, 0);
    h.client_connected(4);
    h.serve(4);
    assert!(!h.bb_full_char(vec![4], vec![5], vec![6]));
    assert!(h.client_record(4).unwrap().full_char.is_none());
}

#[test]
fn option_updates_go_to_the_account() {
    let mut h: BlockHandler<u32> = BlockHandler::new(1, 0);
    h.client_connected(4);
    h.serve(4);
    let sec = SecurityData { magic: 0xCAFE_B00B, slot: 0, sel_char: 1 };
    h.sg_account_info_ack(sec, 1, 0, 31);
    assert_eq!(h.bb_update_options(0x55), (31, 0x55));
    assert_eq!(h.bb_update_keys(vec![1, 2]), (31, vec![1, 2]));
    assert_eq!(h.bb_update_joy(vec![3]), (31, vec![3]));
}

#[test]
fn every_refusal_text_and_fatality() {
    let cases = [
        (BlockError::AllLobbiesFull, "\tEAll lobbies on this block are full. Please try again.", true),
        (BlockError::PartyNameTaken, "\tEA party with that\nname already exists.", false),
        (
            BlockError::ChallengeOnEpisode4,
            "\tEChallenge mode is not supported\non Episode 4.\nOnly Episode 1 and 2 have\nChallenge mode.",
            false,
        ),
        (BlockError::BattleUnsupported, "\tEBattle mode is not\nsupported yet. Sorry!", false),
        (BlockError::ChallengeUnsupported, "\tEChallenge mode is not\nsupported yet. Sorry!", false),
        (BlockError::IllegalMessage, "\tEIllegal message", true),
        (BlockError::NotInParty, "\tEIllegal message.", true),
        (BlockError::LobbyFull, "\tELobby is full.", false),
        (BlockError::InvalidLobby, "\tEYou tried to join an invalid lobby.\nDisconnected.", true),
        (BlockError::PlayerBursting, "\tEA player is bursting.\nPlease wait.", false),
        (BlockError::OnePersonOnly, "\tEParty is One Person only.", false),
        (BlockError::PartyFull, "\tEParty is full.", false),
        (BlockError::PartyGone, "\tEParty no longer\texists.", false),
        (BlockError::InvalidMenu, "\tEInvalid menu", false),
    ];
    for (e, text, fatal) in cases.iter() {
        assert_eq!(e.text(), *text);
        assert_eq!(e.is_fatal(), *fatal);
    }
}

#[test]
fn lobby_event_ffff_counts_as_no_lobby() {
    let maps = areas();
    let mut h: BlockHandler<u32> = BlockHandler::new(1, 0xFFFF);
    h.serve(1);
    h.bb_char_dat().unwrap();
    h.serve(2);
    h.bb_char_dat().unwrap();
    h.serve(1);
    let (left, r) = h.bb_create_game(&create("\tEa", "", 1), 0, 0, &maps, &maps);
    // The creator has left the lobby, but no party is made.
    assert_eq!(left.unwrap().notify, vec![2]);
    assert_eq!(r.err(), Some(BlockError::IllegalMessage));
    assert_eq!(h.num_parties(), 0);
    assert_eq!(h.find_lobby(1), None);
}
