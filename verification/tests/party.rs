use idola::block::partyhandler::error::PartyError;
use idola::block::partyhandler::exp::{award_exp, exp_for_hit, CharProgress, LevelEntry, LevelTable, Stats};
use idola::block::partyhandler::{Party, PartyAction, Queued, SubCmd, SubCmdKind};
use idola::maps::{Areas, Ep1Areas, Ep2Areas, Ep4Areas, KeyedVariation, MapEnemy, VariationData};

fn enemy(base: u32, skin: u32) -> MapEnemy {
    MapEnemy { base, num_clones: 0, skin, reserved2: [0; 11] }
}

fn var(enemies: Vec<MapEnemy>) -> VariationData {
    VariationData { enemies }
}

fn keyed(major: u32, minor: u32) -> KeyedVariation {
    KeyedVariation { major, minor, data: var(vec![]) }
}

fn areas() -> Areas {
    Areas {
        ep1: Ep1Areas {
            city: var(vec![]),
            forest1: vec![var(vec![enemy(0x40, 0), enemy(0x44, 1)])],
            forest2: vec![var(vec![])],
            cave1: vec![keyed(0, 0)],
            cave2: vec![keyed(0, 0)],
            cave3: vec![keyed(0, 0)],
            machine1: vec![keyed(0, 0)],
            machine2: vec![keyed(0, 0)],
            ancient1: vec![keyed(0, 0)],
            ancient2: vec![keyed(0, 0)],
            ancient3: vec![keyed(0, 0)],
            boss1: var(vec![]),
            boss2: var(vec![]),
            boss3: var(vec![]),
            boss4: var(vec![]),
        },
        ep2: Ep2Areas {
            city: var(vec![]),
            ruins1: vec![keyed(0, 0)],
            ruins2: vec![keyed(0, 0)],
            space1: vec![keyed(0, 0)],
            space2: vec![keyed(0, 0)],
            jungle1: vec![var(vec![])],
            jungle2: vec![var(vec![])],
            jungle3: vec![var(vec![])],
            jungle4: vec![keyed(0, 0)],
            jungle5: vec![var(vec![])],
            seabed1: vec![keyed(0, 0)],
            seabed2: vec![keyed(0, 0)],
            boss5: var(vec![]),
            boss6: var(vec![]),
            boss7: var(vec![]),
            boss8: var(vec![]),
        },
        ep4: Ep4Areas {
            city: var(vec![]),
            wilds1: vec![var(vec![])],
            wilds2: vec![var(vec![])],
            wilds3: vec![var(vec![])],
            wilds4: vec![var(vec![])],
            crater: vec![var(vec![])],
            desert1: vec![var(vec![])],
            desert2: vec![var(vec![])],
            desert3: vec![var(vec![])],
            boss9: var(vec![]),
        },
    }
}

fn party() -> Party<u32> {
    Party::new("\tEtest", Some("pw"), 1, 0, false, false, false, 0, &areas(), 7)
}

fn cmd(kind: SubCmdKind, msg: u32) -> SubCmd<u32> {
    SubCmd { kind, msg }
}

#[test]
fn new_party_settings() {
    let p = party();
    assert_eq!(p.name, "\tEtest");
    assert_eq!(p.password, Some("pw".to_string()));
    assert_eq!((p.episode, p.difficulty, p.unique_id), (1, 0, 7));
    assert!(p.is_empty());
    assert!(!p.is_bursting());
    assert_eq!(p.player_limit(), 4);
    assert_eq!(p.variants.len(), 32);
    assert_eq!(p.enemies.len(), 2);
    assert_eq!(p.handle_bb_game_name(), "\tEtest");
    let single: Party<u32> = Party::new("\tEsolo", None, 2, 1, false, false, true, 0, &areas(), 8);
    assert_eq!(single.player_limit(), 1);
    assert_eq!(single.password, None);
}

#[test]
fn joining_sets_leader_section_and_bursting() {
    let mut p = party();
    let plan = p.add_player(100, 3, 4).unwrap();
    assert_eq!((plan.client_id, plan.leader_id, plan.section, plan.count), (0, 0, 4, 1));
    assert_eq!(plan.players, vec![Some(100), None, None, None]);
    assert_eq!(plan.add_member_to, Vec::<(u8, usize)>::new());
    assert_eq!(p.section_id, Some(3));
    assert!(p.is_bursting());
    let plan = p.add_player(200, 9, 9).unwrap();
    assert_eq!((plan.client_id, plan.leader_id, plan.section, plan.count), (1, 0, 3, 2));
    assert_eq!(plan.add_member_to, vec![(0, 100)]);
}

#[test]
fn full_party_refuses() {
    let mut p = party();
    for c in 0..4 {
        p.add_player(c, 0, 0).unwrap();
    }
    assert!(p.is_full());
    assert_eq!(p.add_player(9, 0, 0).err(), Some(PartyError::IsFull));
}

#[test]
fn leaving_leader_hands_over_and_last_destroys() {
    let mut p = party();
    p.add_player(1, 0, 0).unwrap();
    p.add_player(2, 0, 0).unwrap();
    let plan = p.remove_player(1).unwrap();
    assert!(!plan.destroy);
    assert_eq!((plan.client_id, plan.leader_id), (0, 1));
    assert_eq!(plan.notify, vec![2]);
    let plan = p.remove_player(2).unwrap();
    assert!(plan.destroy);
    assert_eq!(p.remove_player(2).err(), Some(PartyError::NotInParty));
}

#[test]
fn commands_wait_while_someone_bursts() {
    let mut p = party();
    p.add_player(1, 0, 0).unwrap();
    p.handle_bb_done_burst(1).unwrap();
    p.add_player(2, 0, 0).unwrap();
    // Player 2 is loading: an uninterpreted 0x60 waits.
    let acts = p.handle_bb_subcmd_60(1, 1, cmd(SubCmdKind::Unknown(0x20), 11));
    assert!(acts.is_empty());
    // 0x7C passes straight through.
    let acts = p.handle_bb_subcmd_60(1, 1, cmd(SubCmdKind::Unknown(0x7C), 12));
    assert_eq!(acts.len(), 1);
    match &acts[0] {
        PartyAction::Broadcast { to, cmd: Queued::Cmd60(m) } => {
            assert_eq!(to, &vec![2]);
            assert_eq!(m.msg, 12);
        },
        _ => panic!("expected a broadcast"),
    }
    // A directed command waits too.
    assert!(p.handle_bb_subcmd_62(1, 1, 1, cmd(SubCmdKind::Other, 13)).is_empty());
    let done = p.handle_bb_done_burst(2).unwrap();
    assert_eq!(done.ping_to, 2);
    assert_eq!(done.done_to, vec![1, 2]);
    assert_eq!(done.actions.len(), 2);
    match &done.actions[0] {
        PartyAction::Broadcast { to, cmd: Queued::Cmd60(m) } => {
            assert_eq!(to, &vec![2]);
            assert_eq!(m.msg, 11);
        },
        _ => panic!("expected the held broadcast first"),
    }
    match &done.actions[1] {
        PartyAction::Send { to, cmd: Queued::Cmd62(1, m) } => {
            assert_eq!(*to, 2);
            assert_eq!(m.msg, 13);
        },
        _ => panic!("expected the held 0x62 second"),
    }
    assert!(!p.is_bursting());
}

#[test]
fn done_burst_errors() {
    let mut p = party();
    assert_eq!(p.handle_bb_done_burst(5).err(), Some(PartyError::NotInParty));
    p.add_player(5, 0, 0).unwrap();
    p.handle_bb_done_burst(5).unwrap();
    assert_eq!(p.handle_bb_done_burst(5).err(), Some(PartyError::NotBursting));
}

#[test]
fn experience_request_awards_the_requester() {
    let mut p = party();
    p.add_player(1, 0, 0).unwrap();
    p.add_player(2, 0, 0).unwrap();
    p.handle_bb_done_burst(1).unwrap();
    p.handle_bb_done_burst(2).unwrap();
    let acts = p.handle_bb_subcmd_60(2, 1, cmd(SubCmdKind::ReqExp { enemy_id: 1, last_hitter: 1 }, 0));
    assert_eq!(acts.len(), 2);
    match &acts[0] {
        PartyAction::AwardExp { client, enemy_id, last_hitter } => {
            assert_eq!((*client, *enemy_id, *last_hitter), (2, 1, 1));
        },
        _ => panic!("expected the award first"),
    }
    assert_eq!(p.exp_param_entry(1), Some(0x49));
    assert_eq!(p.exp_param_entry(0), Some(0x49));
    assert_eq!(p.exp_param_entry(2), None);
}

fn table() -> LevelTable {
    let mut row = Vec::new();
    for l in 0..200u32 {
        row.push(LevelEntry { atp: 1, mst: 2, evp: 3, hp: 4, dfp: 5, ata: 6, exp: l * 100 });
    }
    LevelTable { levels: vec![row], start_stats: vec![] }
}

fn zero() -> Stats {
    Stats { atp: 0, mst: 0, evp: 0, hp: 0, dfp: 0, ata: 0, lck: 0 }
}

#[test]
fn award_levels_up_through_every_level_met() {
    let mut c = CharProgress { class: 0, level: 0, exp: 0, stats: zero() };
    let a = award_exp(&mut c, &table(), 250).unwrap();
    assert!(a.leveled_up);
    assert_eq!((a.level, a.exp), (2, 250));
    assert_eq!(c.level, 2);
    assert_eq!(c.exp, 250);
    assert_eq!(c.stats, Stats { atp: 2, mst: 4, evp: 6, hp: 8, dfp: 10, ata: 12, lck: 0 });
    let a = award_exp(&mut c, &table(), 10).unwrap();
    assert!(!a.leveled_up);
    assert_eq!(a.stats, zero());
    assert_eq!(c.level, 2);
}

#[test]
fn award_at_top_level_gives_nothing() {
    let mut c = CharProgress { class: 0, level: 199, exp: 5, stats: zero() };
    assert!(award_exp(&mut c, &table(), 1000).is_none());
    assert_eq!((c.level, c.exp), (199, 5));
}

#[test]
fn assist_earns_eighty_percent() {
    assert_eq!(exp_for_hit(100, 1), 100);
    assert_eq!(exp_for_hit(100, 0), 80);
    assert_eq!(exp_for_hit(7, 0), 5);
}

#[test]
fn experience_notice_goes_to_everyone() {
    let mut p = party();
    p.add_player(1, 0, 0).unwrap();
    p.add_player(2, 0, 0).unwrap();
    let mut c = CharProgress { class: 0, level: 0, exp: 0, stats: zero() };
    let n = p.handle_bb_60_req_exp(2, &mut c, &table(), Some(125), 0).unwrap();
    assert_eq!(n.slot, 1);
    assert_eq!(n.to, vec![1, 2]);
    assert_eq!(n.exp, 100);
    assert_eq!(n.level_up, Some((Stats { atp: 1, mst: 2, evp: 3, hp: 4, dfp: 5, ata: 6, lck: 0 }, 1)));
    assert!(p.handle_bb_60_req_exp(2, &mut c, &table(), None, 1).is_none());
    assert_eq!(c.exp, 100);
}

#[test]
fn party_leave_undoes_join() {
    let mut p = party();
    p.add_player(1, 0, 0).unwrap();
    p.handle_bb_done_burst(1).unwrap();
    let members = p.members;
    let leader = p.leader_id;
    p.add_player(2, 0, 0).unwrap();
    p.remove_player(2).unwrap();
    assert_eq!(p.members, members);
    assert_eq!(p.leader_id, leader);
    assert!(!p.is_bursting());
}

#[test]
fn more_experience_never_means_a_lower_level() {
    let mut a = CharProgress { class: 0, level: 3, exp: 300, stats: zero() };
    let mut b = a;
    award_exp(&mut a, &table(), 150).unwrap();
    award_exp(&mut b, &table(), 1500).unwrap();
    assert!(a.level <= b.level);
    assert_eq!((a.level, b.level), (4, 18));
}

#[test]
fn falz_raised_from_hard_on() {
    let mut maps = areas();
    maps.ep1.boss4 = var(vec![enemy(0xC8, 0)]);
    let normal: Party<u32> = Party::new("\tEn", None, 1, 0, false, false, false, 0, &maps, 1);
    assert_eq!(normal.enemies.iter().filter(|e| e.param_entry == 0x37).count(), 1);
    assert_eq!(normal.enemies.iter().filter(|e| e.param_entry == 0x38).count(), 1);
    let hard: Party<u32> = Party::new("\tEh", None, 1, 1, false, false, false, 0, &maps, 2);
    assert_eq!(hard.enemies.iter().filter(|e| e.param_entry == 0x37).count(), 0);
    assert_eq!(hard.enemies.iter().filter(|e| e.param_entry == 0x38).count(), 2);
}
