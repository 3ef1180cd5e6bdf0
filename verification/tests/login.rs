use idola::block::partyhandler::exp::{LevelTable, Stats};
use idola::login::defaults::{make_defaults, InvItem, NewCharacter};
use idola::login::handler::{
    AccountStep, BbLoginHandler, ChallengeStep, CharSelectStep, LoginMenuChoice, SecurityData, SecurityReply,
    ShipEntry, Timestamp,
};
use idola::login::paramfiles::{build_param_files, param_file_list};

fn sec(magic: u32, slot: u8, sel_char: u8) -> SecurityData {
    SecurityData { magic, slot, sel_char }
}

fn accepted(guildcard: u32, s: SecurityData) -> SecurityReply {
    SecurityReply { err_code: 0, tag: 0x10000, guildcard, team_id: 0xFFFF_FFFF, security_data: s, caps: 0x101 }
}

#[test]
fn challenge_refusal_and_fetch() {
    assert_eq!(
        BbLoginHandler::bb_login_challenge_ack(4, 1),
        ChallengeStep::Refuse(SecurityReply {
            err_code: 4,
            tag: 0x10000,
            guildcard: 0,
            team_id: 0,
            security_data: sec(0, 0, 0),
            caps: 0x101
        })
    );
    assert_eq!(BbLoginHandler::bb_login_challenge_ack(0, 77), ChallengeStep::FetchAccount(77));
}

#[test]
fn fresh_client_gets_a_session() {
    let mut h = BbLoginHandler::new();
    match h.bb_login_account_ack(sec(0, 3, 1), 0, 42, 5) {
        AccountStep::Fresh(reply) => assert_eq!(reply, accepted(42, sec(0xCAFE_B00B, 0, 0))),
        _ => panic!("expected a fresh session"),
    }
    assert_eq!(h.sec_data, sec(0xCAFE_B00B, 0, 0));
    assert_eq!((h.bb_guildcard, h.team_id), (42, 5));
}

#[test]
fn returning_client_with_character_gets_the_time() {
    let mut h = BbLoginHandler::new();
    let s = sec(0xCAFE_B00B, 2, 1);
    match h.bb_login_account_ack(s, 0, 42, 5) {
        AccountStep::Resumed { reply, timestamp } => {
            assert_eq!(reply, accepted(42, s));
            assert_eq!(
                timestamp,
                Some(Timestamp { year: 2016, month: 1, day: 1, hour: 0, minute: 30, second: 30, msec: 0 })
            );
        },
        _ => panic!("expected a resumed session"),
    }
    assert_eq!(h.sec_data, s);
    match h.bb_login_account_ack(sec(0xCAFE_B00B, 2, 0), 0, 42, 5) {
        AccountStep::Resumed { timestamp, .. } => assert_eq!(timestamp, None),
        _ => panic!("expected a resumed session"),
    }
}

#[test]
fn account_error_is_reported() {
    let mut h = BbLoginHandler::new();
    match h.bb_login_account_ack(sec(0, 0, 0), 1, 42, 5) {
        AccountStep::DbError(m) => assert_eq!(m, "Internal DB error."),
        _ => panic!("expected the database error"),
    }
    assert_eq!(h.bb_guildcard, 0);
}

#[test]
fn ship_list_and_selection() {
    let mut h = BbLoginHandler::new();
    assert_eq!(h.menu_select(0, 1), LoginMenuChoice::Ignore);
    let ships = vec![
        ShipEntry { ip: 0x7F00_0001, port: 12000, name: "Alpha".to_string() },
        ShipEntry { ip: 0x0A00_0001, port: 12001, name: "Beta".to_string() },
    ];
    let list = h.sg_shiplist_ack(ships);
    assert_eq!(list.len(), 3);
    assert_eq!((list[0].menu_id, list[0].item_id, list[0].flags, list[0].name.as_str()), (0, 0, 4, "SHIP/US"));
    assert_eq!((list[1].item_id, list[1].flags, list[1].name.as_str()), (1, 0x0F04, "Alpha"));
    assert_eq!((list[2].item_id, list[2].name.as_str()), (2, "Beta"));
    assert_eq!(h.menu_select(0, 2), LoginMenuChoice::Redirect { ip: 0x0A00_0001, port: 12001 });
    assert_eq!(h.menu_select(0, 3), LoginMenuChoice::Drop);
    assert_eq!(h.menu_select(5, 1), LoginMenuChoice::InvalidMenu);
    assert_eq!(BbLoginHandler::invalid_menu_message(), "Invalid menu");
}

#[test]
fn character_select_and_create() {
    let mut h = BbLoginHandler::new();
    h.bb_guildcard = 9;
    h.sec_data = sec(0xCAFE_B00B, 0, 0);
    assert_eq!(h.bb_char_select(3, false), CharSelectStep::Info(3));
    assert_eq!(h.sec_data.sel_char, 0);
    assert_eq!(
        h.bb_char_select(3, true),
        CharSelectStep::Selected { reply: accepted(9, sec(0xCAFE_B00B, 0, 1)), slot: 3 }
    );
    let mut h = BbLoginHandler::new();
    h.bb_guildcard = 9;
    let (reply, slot) = h.bb_char_info(0x102);
    assert_eq!(h.sec_data, sec(0xCAFE_B00B, 0x02, 1));
    assert_eq!(reply, accepted(9, sec(0xCAFE_B00B, 0x02, 1)));
    assert_eq!(slot, 0x102);
}

#[test]
fn older_login_flow() {
    let (reply, redirect) = BbLoginHandler::handle_sg_login_ack(0);
    assert_eq!(
        reply,
        SecurityReply {
            err_code: 0,
            tag: 0x10000,
            guildcard: 1000000,
            team_id: 1,
            security_data: sec(0xCAFE_B00B, 0, 0),
            caps: 0x102
        }
    );
    assert_eq!(redirect, Some((0x7F00_0001, 12001)));
    let (reply, redirect) = BbLoginHandler::handle_sg_login_ack(2);
    assert_eq!(reply.err_code, 2);
    assert_eq!(redirect, None);
}

#[test]
fn guild_card_header_and_chunks() {
    let h = BbLoginHandler::bb_guildcard_req();
    assert_eq!((h.one, h.len, h.checksum), (1, 54672, 0x2017_ed92));
    let (c, data) = BbLoginHandler::bb_guildcard_chunk_req(0, true).unwrap();
    assert_eq!((c, data.len()), (0, 0x6800));
    let (c, data) = BbLoginHandler::bb_guildcard_chunk_req(2, true).unwrap();
    assert_eq!((c, data.len()), (2, 54672 - 2 * 0x6800));
    assert!(data.iter().all(|&b| b == 0));
    assert!(BbLoginHandler::bb_guildcard_chunk_req(1, false).is_none());
}

#[test]
fn param_chunks_by_number() {
    let chunks = vec![10u8, 20, 30];
    assert_eq!(BbLoginHandler::bb_param_chunk_req(&chunks, 1), Some(&20));
    assert_eq!(BbLoginHandler::bb_param_chunk_req(&chunks, 3), None);
}

#[test]
fn param_files_headers_and_chunks() {
    let names = param_file_list();
    assert_eq!(names.len(), 9);
    assert_eq!(names[0], "ItemMagEdit.prs");
    assert_eq!(names[8], "PlyLevelTbl.prs");
    let files = vec![("a.dat".to_string(), b"abc".to_vec()), ("b.dat".to_string(), vec![7u8; 0x6800])];
    let p = build_param_files(files);
    assert_eq!(p.count, 2);
    assert_eq!((p.headers[0].size, p.headers[0].checksum, p.headers[0].offset), (3, 0x3524_41c2, 0));
    assert_eq!(p.headers[0].filename, "a.dat");
    assert_eq!((p.headers[1].size, p.headers[1].offset), (0x6800, 0));
    assert_eq!(p.chunks.len(), 2);
    assert_eq!(p.chunks[0].chunk, 0);
    assert_eq!(p.chunks[0].data.len(), 0x6800);
    assert_eq!(&p.chunks[0].data[..3], b"abc");
    assert_eq!(p.chunks[1].chunk, 1);
    assert_eq!(p.chunks[1].data, vec![7u8; 3]);
}

#[test]
fn param_files_empty_give_one_empty_chunk() {
    let p = build_param_files(vec![]);
    assert_eq!(p.count, 0);
    assert_eq!(p.chunks.len(), 1);
    assert!(p.chunks[0].data.is_empty());
}

fn new_char(class: u8) -> NewCharacter {
    NewCharacter {
        class,
        skin: 0x0105,
        costume: 0x0203,
        techniques: [0xFF; 20],
        config: vec![9; 4],
        meseta: 0,
        stats: Stats { atp: 1, mst: 1, evp: 1, hp: 1, dfp: 1, ata: 1, lck: 1 },
        inventory: vec![],
    }
}

fn item_bytes(it: &InvItem) -> (u32, [u8; 12], u32, [u8; 4]) {
    (it.flags, it.data, it.item_id, it.data2)
}

fn start_table() -> LevelTable {
    let mut stats = Vec::new();
    for c in 0..12u16 {
        stats.push(Stats { atp: c, mst: c + 1, evp: c + 2, hp: c + 3, dfp: c + 4, ata: c + 5, lck: c + 6 });
    }
    LevelTable { levels: vec![], start_stats: stats }
}

#[test]
fn hunter_defaults() {
    let mut c = new_char(0);
    make_defaults(&mut c, &start_table());
    assert_eq!(c.inventory.len(), 4);
    assert_eq!(item_bytes(&c.inventory[0]), (8, [0, 1, 0, 0, 0, 0, 0, 0, 0, 0, 0, 0], 0x10000, [0; 4]));
    assert_eq!(item_bytes(&c.inventory[1]), (8, [1, 1, 0, 0, 0, 0, 0, 0, 0, 0, 0, 0], 0x10001, [0; 4]));
    // The mag takes the costume's color.
    assert_eq!(item_bytes(&c.inventory[2]), (8, [2, 0, 5, 0, 0xF4, 1, 0, 0, 0, 0, 0, 0], 0x10002, [0x14, 0, 0, 0x03]));
    assert_eq!(item_bytes(&c.inventory[3]), (0, [3, 0, 0, 0, 0, 4, 0, 0, 0, 0, 0, 0], 0x10003, [0; 4]));
    assert!(c.inventory.iter().all(|i| i.exists == 1));
    assert_eq!(c.meseta, 300);
    assert_eq!(c.stats, Stats { atp: 0, mst: 1, evp: 2, hp: 3, dfp: 4, ata: 5, lck: 6 });
    assert_eq!(c.techniques, [0xFF; 20]);
    assert_eq!(c.config, vec![9; 4]);
}

#[test]
fn android_mag_takes_skin_color() {
    let mut c = new_char(4);
    make_defaults(&mut c, &start_table());
    assert_eq!(item_bytes(&c.inventory[0]).1[1], 0x06);
    assert_eq!(item_bytes(&c.inventory[2]).3, [0x14, 0, 0, 0x05]);
}

#[test]
fn force_defaults() {
    let mut c = new_char(10);
    make_defaults(&mut c, &start_table());
    assert_eq!(c.inventory.len(), 5);
    assert_eq!(item_bytes(&c.inventory[0]).1[1], 0x0A);
    assert_eq!(item_bytes(&c.inventory[4]), (0, [3, 1, 0, 0, 0, 4, 0, 0, 0, 0, 0, 0], 0x10004, [0; 4]));
    assert_eq!(c.techniques[0], 0);
    assert_eq!(c.techniques[1], 0xFF);
    assert_eq!(c.config.len(), 232);
    assert_eq!(&c.config[..17], &[0, 0, 0, 0, 1, 0, 0, 0, 2, 0, 0, 0, 2, 1, 0, 0, 3]);
    assert_eq!(c.config[60], 1);
    assert_eq!(c.config[114], 1);
    assert_eq!(c.config.iter().filter(|&&b| b != 0).count(), 29);
}

#[test]
fn unknown_class_gets_no_weapon_and_ten_hp() {
    let mut c = new_char(12);
    make_defaults(&mut c, &start_table());
    assert_eq!(c.inventory.len(), 3);
    assert_eq!(c.inventory[0].item_id, 0x10001);
    assert_eq!(c.stats, Stats { atp: 1, mst: 1, evp: 1, hp: 10, dfp: 1, ata: 1, lck: 1 });
}

#[test]
fn param_header_checksum_and_bad_chunk() {
    let p = build_param_files(vec![("a.dat".to_string(), vec![1, 2, 3]), ("b.dat".to_string(), vec![4])]);
    let (count, headers) = BbLoginHandler::bb_param_hdr_req(&p);
    assert_eq!(count, 2);
    assert_eq!(headers.len(), 2);
    assert_eq!(headers[1].filename, "b.dat");
    assert!(BbLoginHandler::bb_checksum(0x1234));
    assert!(BbLoginHandler::bb_param_chunk_req(&p.chunks, 7).is_none());
    assert_eq!(
        BbLoginHandler::invalid_chunk_message(),
        "Whoops, you requested a chunk in the param table that doesn't exist."
    );
}
