use idola::block::lobbyhandler::error::LobbyError;
use idola::block::lobbyhandler::Lobby;

#[test]
fn new_lobby_is_empty() {
    let l = Lobby::new(3, 1, 5);
    assert!(l.is_empty());
    assert!(!l.is_full());
    assert_eq!(l.num_players(), 0);
    assert_eq!(l.lobby_num(), 3);
    assert_eq!(l.block_num(), 1);
    assert_eq!(l.event_num(), 5);
}

#[test]
fn first_joiner_leads_and_others_are_told() {
    let mut l = Lobby::new(0, 1, 0);
    let p = l.add_player(100).unwrap();
    assert_eq!(p.client_id, 0);
    assert_eq!(p.leader_id, 0);
    assert!(p.notify.is_empty());
    assert_eq!(p.members, vec![(0, 100)]);
    assert_eq!(p.quest_data_to, 100);
    let p = l.add_player(200).unwrap();
    assert_eq!(p.client_id, 1);
    assert_eq!(p.leader_id, 0);
    assert_eq!(p.notify, vec![(0, 100)]);
    assert_eq!(p.members, vec![(0, 100), (1, 200)]);
    assert_eq!((p.lobby_num, p.block_num, p.event), (0, 1, 0));
    assert!(l.has_player(200));
    assert_eq!(l.num_players(), 2);
}

#[test]
fn joining_twice_is_refused() {
    let mut l = Lobby::new(0, 1, 0);
    l.add_player(7).unwrap();
    assert_eq!(l.add_player(7).err(), Some(LobbyError::AlreadyInLobby));
    assert_eq!(l.num_players(), 1);
}

#[test]
fn full_lobby_refuses() {
    let mut l = Lobby::new(0, 1, 0);
    for c in 0..12 {
        l.add_player(c).unwrap();
    }
    assert!(l.is_full());
    assert_eq!(l.add_player(99).err(), Some(LobbyError::IsFull));
}

#[test]
fn leader_leaving_hands_over_to_lowest_slot() {
    let mut l = Lobby::new(0, 1, 0);
    l.add_player(10).unwrap();
    l.add_player(20).unwrap();
    l.add_player(30).unwrap();
    let plan = l.remove_player(10).unwrap().unwrap();
    assert_eq!(plan.client_id, 0);
    assert_eq!(plan.leader_id, 1);
    assert_eq!(plan.notify, vec![20, 30]);
    // The freed slot is taken by the next joiner.
    let p = l.add_player(40).unwrap();
    assert_eq!(p.client_id, 0);
    assert_eq!(p.leader_id, 1);
}

#[test]
fn last_leaver_resets_the_lobby() {
    let mut l = Lobby::new(2, 1, 0);
    l.add_player(5).unwrap();
    assert!(l.remove_player(5).unwrap().is_none());
    assert!(l.is_empty());
    assert_eq!(l.remove_player(5).err(), Some(LobbyError::NotInLobby));
}

#[test]
fn leave_undoes_join() {
    let mut l = Lobby::new(0, 1, 0);
    l.add_player(1).unwrap();
    l.add_player(2).unwrap();
    let before = l.bb_broadcast(None);
    l.add_player(3).unwrap();
    l.remove_player(3).unwrap();
    assert_eq!(l.bb_broadcast(None), before);
    assert_eq!(l.num_players(), 2);
}

#[test]
fn subcommands_go_to_the_others() {
    let mut l = Lobby::new(0, 1, 0);
    l.add_player(1).unwrap();
    l.add_player(2).unwrap();
    l.add_player(3).unwrap();
    assert_eq!(l.handle_bb_subcmd_60(2), vec![1, 3]);
    assert_eq!(l.handle_bb_subcmd_6c(1), vec![2, 3]);
    assert_eq!(l.bb_broadcast(None), vec![1, 2, 3]);
}

#[test]
fn event_reload_asks_to_reenter() {
    let mut l = Lobby::new(0, 1, 0);
    l.add_player(1).unwrap();
    l.add_player(2).unwrap();
    let r = l.set_event_reload(5);
    assert_eq!(r.reload, vec![1, 2]);
    assert_eq!(r.message, "\tEPlease re-enter the\nlobby to see the\nnew event.");
    assert_eq!(l.event_num(), 5);
    l.set_event(7);
    assert_eq!(l.event_num(), 7);
    assert!(l.has_player(1));
}
