//! The Blue Burst login server's answers: the login conversation with the
//! shipgate, character selection and creation, guild card data, the ship
//! list and menu choices.

use vstd::prelude::*;
use vstd::string::StringExecFns;

use crate::login::paramfiles::{checksum_ieee, crc32_ieee, ParamFiles, ParamHeader};

verus! {

/// The magic number of the security data of a client with a session.
pub const SESSION_MAGIC: u32 = 0xCAFE_B00B;

/// What the server reads and writes of a client's security data.
#[derive(Clone, Copy, Debug, PartialEq, Eq, Structural)]
pub struct SecurityData {
    pub magic: u32,
    /// The character slot.
    pub slot: u8,
    /// Whether a character was selected.
    pub sel_char: u8,
}

/// The security data of a new session: the magic number, nothing else.
pub open spec fn fresh_security() -> SecurityData {
    SecurityData { magic: SESSION_MAGIC, slot: 0, sel_char: 0 }
}

/// A security reply: a login's outcome and the client's security data.
#[derive(Clone, Copy, Debug, PartialEq, Eq, Structural)]
pub struct SecurityReply {
    pub err_code: u32,
    pub tag: u32,
    pub guildcard: u32,
    pub team_id: u32,
    pub security_data: SecurityData,
    pub caps: u32,
}

/// The accepted login reply for guild card `guildcard` with security data
/// `sec`.
pub open spec fn accepted_reply(guildcard: u32, sec: SecurityData) -> SecurityReply {
    SecurityReply {
        err_code: 0,
        tag: 0x0001_0000,
        guildcard,
        team_id: 0xFFFF_FFFF,
        security_data: sec,
        caps: 0x0000_0101,
    }
}

/// A date and time sent to the client.
#[derive(Clone, Copy, Debug, PartialEq, Eq, Structural)]
pub struct Timestamp {
    pub year: u16,
    pub month: u16,
    pub day: u16,
    pub hour: u16,
    pub minute: u16,
    pub second: u16,
    pub msec: u16,
}

/// The time sent before the ship list: 2016-01-01 00:30:30.000.
pub open spec fn ship_list_time() -> Timestamp {
    Timestamp { year: 2016, month: 1, day: 1, hour: 0, minute: 30, second: 30, msec: 0 }
}

/// A ship the shipgate lists: its address and name.
#[derive(Clone, Debug)]
pub struct ShipEntry {
    pub ip: u32,
    pub port: u16,
    pub name: String,
}

/// What follows the shipgate's answer to a login challenge.
#[derive(Clone, Copy, Debug, PartialEq, Eq, Structural)]
pub enum ChallengeStep {
    /// The login is refused with this reply.
    Refuse(SecurityReply),
    /// The account's data is asked for.
    FetchAccount(u32),
}

/// What follows the shipgate's account data.
pub enum AccountStep {
    /// The account could not be read: the client is told and disconnected.
    DbError(String),
    /// A client without a session gets one: it is sent the reply, then
    /// redirected to the login server again.
    Fresh(SecurityReply),
    /// A client with a session is sent the reply; one that selected a
    /// character is then sent the time and the ship list.
    Resumed { reply: SecurityReply, timestamp: Option<Timestamp> },
}

/// What follows a character slot request.
#[derive(Clone, Copy, Debug, PartialEq, Eq, Structural)]
pub enum CharSelectStep {
    /// The character in the slot is selected: the client is sent the reply,
    /// then the acknowledgement of the slot.
    Selected { reply: SecurityReply, slot: u32 },
    /// The client is sent the (empty) data of the character in the slot.
    Info(u32),
}

/// An entry of the ship list menu.
#[derive(Clone, Debug)]
pub struct ShipListItem {
    pub menu_id: u32,
    pub item_id: u32,
    pub flags: u16,
    pub name: String,
}

/// What the login server does when a client picks from a menu.
#[derive(Clone, Copy, Debug, PartialEq, Eq, Structural)]
pub enum LoginMenuChoice {
    /// Redirect the client to this address.
    Redirect { ip: u32, port: u16 },
    /// Disconnect the client: it picked no ship.
    Drop,
    /// The client has no ship list yet: nothing happens.
    Ignore,
    /// Not the ship menu: the client is told "Invalid menu" and
    /// disconnected.
    InvalidMenu,
}

/// The login server's record of a client.
pub struct BbLoginHandler {
    pub sec_data: SecurityData,
    pub team_id: u32,
    pub bb_guildcard: u32,
    pub ships: Option<Vec<ShipEntry>>,
}

/// The size of a guild card file.
pub const GUILDCARD_LEN: usize = 54672;

/// The size of a guild card chunk.
pub const GUILDCARD_CHUNK: usize = 0x6800;

/// The guild card header: the file's size and checksum.
#[derive(Clone, Copy, Debug, PartialEq, Eq, Structural)]
pub struct GuildCardHdr {
    pub one: u32,
    pub len: u32,
    pub checksum: u32,
}

/// The guild card file: all zeros (guild cards are not kept).
pub open spec fn guildcard_file() -> Seq<u8> {
    Seq::new(GUILDCARD_LEN as nat, |_i: int| 0u8)
}

/// `n` zero bytes.
fn zeros(n: usize) -> (r: Vec<u8>)
    ensures
        r@ == Seq::new(n as nat, |_i: int| 0u8),
{
    let mut v: Vec<u8> = Vec::new();
    let mut i: usize = 0;
    while i < n
        invariant
            i <= n,
            v@ == Seq::new(i as nat, |_i: int| 0u8),
        decreases n - i,
    {
        v.push(0);
        assert(v@ =~= Seq::new((i + 1) as nat, |_i: int| 0u8));
        i = i + 1;
    }
    v
}

/// The size of guild card chunk `chunk`: the rest of the file from the
/// chunk's start, at most 0x6800 bytes.
pub open spec fn guildcard_chunk_size(chunk: u32) -> int {
    let remaining = GUILDCARD_LEN - chunk * GUILDCARD_CHUNK;
    if remaining < GUILDCARD_CHUNK { remaining } else { GUILDCARD_CHUNK as int }
}

impl BbLoginHandler {
    /// The record of a newly connected client: nothing known yet.
    pub fn new() -> (h: BbLoginHandler)
        ensures
            h.sec_data == (SecurityData { magic: 0, slot: 0, sel_char: 0 }),
            h.team_id == 0,
            h.bb_guildcard == 0,
            h.ships is None,
    {
        BbLoginHandler { sec_data: SecurityData { magic: 0, slot: 0, sel_char: 0 }, team_id: 0, bb_guildcard: 0, ships: None }
    }

    /// The shipgate answered the login challenge with `status`: a status
    /// other than 0 refuses the login (with that error code and empty
    /// security data); else the account `account_id` is fetched.
    pub fn bb_login_challenge_ack(status: u32, account_id: u32) -> (r: ChallengeStep)
        ensures
            status != 0 ==> r == ChallengeStep::Refuse(
                SecurityReply {
                    err_code: status,
                    tag: 0x0001_0000,
                    guildcard: 0,
                    team_id: 0,
                    security_data: SecurityData { magic: 0, slot: 0, sel_char: 0 },
                    caps: 0x0000_0101,
                },
            ),
            status == 0 ==> r == ChallengeStep::FetchAccount(account_id),
    {
        if status != 0 {
            ChallengeStep::Refuse(
                SecurityReply {
                    err_code: status,
                    tag: 0x0001_0000,
                    guildcard: 0,
                    team_id: 0,
                    security_data: SecurityData { magic: 0, slot: 0, sel_char: 0 },
                    caps: 0x0000_0101,
                },
            )
        } else {
            ChallengeStep::FetchAccount(account_id)
        }
    }

    /// The shipgate sent the account data (`status`, the guild card number
    /// and team) of a client that logged in with security data `offered`.
    /// A client without a session (wrong magic number) gets a fresh one;
    /// one with a session keeps its security data. Either way the record
    /// takes the guild card and team.
    pub fn bb_login_account_ack(
        &mut self,
        offered: SecurityData,
        status: u32,
        guildcard: u32,
        team_id: u32,
    ) -> (r: AccountStep)
        ensures
            status != 0 ==> (r matches AccountStep::DbError(s) && s@ == "Internal DB error."@) && final(self).sec_data
                == old(self).sec_data && final(self).team_id == old(self).team_id && final(self).bb_guildcard == old(
                self,
            ).bb_guildcard,
            status == 0 ==> final(self).team_id == team_id && final(self).bb_guildcard == guildcard,
            status == 0 && offered.magic != SESSION_MAGIC ==> final(self).sec_data == fresh_security() && (r
                matches AccountStep::Fresh(reply) && reply == accepted_reply(guildcard, fresh_security())),
            status == 0 && offered.magic == SESSION_MAGIC ==> final(self).sec_data == offered && (r matches AccountStep::Resumed {
                reply,
                timestamp,
            } && reply == accepted_reply(guildcard, offered) && timestamp == (if offered.sel_char != 0 {
                Some(ship_list_time())
            } else {
                None
            })),
            final(self).ships == old(self).ships,
    {
        if status != 0 {
            return AccountStep::DbError(String::from_str("Internal DB error."));
        }
        if offered.magic != SESSION_MAGIC {
            let sec = SecurityData { magic: SESSION_MAGIC, slot: 0, sel_char: 0 };
            self.sec_data = sec;
            self.team_id = team_id;
            self.bb_guildcard = guildcard;
            AccountStep::Fresh(
                SecurityReply {
                    err_code: 0,
                    tag: 0x0001_0000,
                    guildcard,
                    team_id: 0xFFFF_FFFF,
                    security_data: sec,
                    caps: 0x0000_0101,
                },
            )
        } else {
            self.sec_data = offered;
            self.bb_guildcard = guildcard;
            self.team_id = team_id;
            let reply = SecurityReply {
                err_code: 0,
                tag: 0x0001_0000,
                guildcard,
                team_id: 0xFFFF_FFFF,
                security_data: offered,
                caps: 0x0000_0101,
            };
            let timestamp = if offered.sel_char != 0 {
                Some(Timestamp { year: 2016, month: 1, day: 1, hour: 0, minute: 30, second: 30, msec: 0 })
            } else {
                None
            };
            AccountStep::Resumed { reply, timestamp }
        }
    }

    /// The shipgate sent the ship list: the record keeps it, and the client
    /// is sent the menu: the "SHIP/US" title entry, then each ship,
    /// numbered from 1.
    pub fn sg_shiplist_ack(&mut self, ships: Vec<ShipEntry>) -> (r: Vec<ShipListItem>)
        requires
            ships@.len() < u32::MAX,
        ensures
            final(self).ships == Some(ships),
            final(self).sec_data == old(self).sec_data,
            final(self).team_id == old(self).team_id,
            final(self).bb_guildcard == old(self).bb_guildcard,
            r@.len() == ships@.len() + 1,
            r@[0].menu_id == 0 && r@[0].item_id == 0 && r@[0].flags == 0x0004 && r@[0].name@ == "SHIP/US"@,
            forall|i: int|
                1 <= i <= ships@.len() ==> {
                    let e = #[trigger] r@[i];
                    &&& e.menu_id == 0
                    &&& e.item_id == i
                    &&& e.flags == 0x0F04
                    &&& e.name@ == ships@[i - 1].name@
                },
    {
        let mut list: Vec<ShipListItem> = Vec::new();
        list.push(ShipListItem { menu_id: 0, item_id: 0, flags: 0x0004, name: String::from_str("SHIP/US") });
        let mut i: usize = 0;
        while i < ships.len()
            invariant
                i <= ships@.len(),
                ships@.len() < u32::MAX,
                list@.len() == i + 1,
                list@[0].menu_id == 0 && list@[0].item_id == 0 && list@[0].flags == 0x0004 && list@[0].name@
                    == "SHIP/US"@,
                forall|j: int|
                    1 <= j <= i ==> {
                        let e = #[trigger] list@[j];
                        &&& e.menu_id == 0
                        &&& e.item_id == j
                        &&& e.flags == 0x0F04
                        &&& e.name@ == ships@[j - 1].name@
                    },
            decreases ships@.len() - i,
        {
            list.push(ShipListItem { menu_id: 0, item_id: (i + 1) as u32, flags: 0x0F04, name: ships[i].name.clone() });
            i = i + 1;
        }
        self.ships = Some(ships);
        list
    }

    /// The client asked about character slot `slot`: when `selecting`, the
    /// character is selected (the record notes it) and the client gets the
    /// accepted reply and the slot's acknowledgement; else it gets the
    /// slot's character data.
    pub fn bb_char_select(&mut self, slot: u32, selecting: bool) -> (r: CharSelectStep)
        ensures
            selecting ==> final(self).sec_data == (SecurityData {
                magic: old(self).sec_data.magic,
                slot: old(self).sec_data.slot,
                sel_char: 1,
            }) && r == (CharSelectStep::Selected {
                reply: accepted_reply(old(self).bb_guildcard, final(self).sec_data),
                slot,
            }),
            !selecting ==> final(self).sec_data == old(self).sec_data && r == CharSelectStep::Info(slot),
            final(self).team_id == old(self).team_id,
            final(self).bb_guildcard == old(self).bb_guildcard,
            final(self).ships == old(self).ships,
    {
        if selecting {
            self.sec_data.sel_char = 1;
            CharSelectStep::Selected {
                reply: SecurityReply {
                    err_code: 0,
                    tag: 0x0001_0000,
                    guildcard: self.bb_guildcard,
                    team_id: 0xFFFF_FFFF,
                    security_data: self.sec_data,
                    caps: 0x0000_0101,
                },
                slot,
            }
        } else {
            CharSelectStep::Info(slot)
        }
    }

    /// The client created a character in slot `slot`: the record takes the
    /// slot (its low byte), notes the selection and the session; the client
    /// gets the accepted reply and the slot's acknowledgement.
    pub fn bb_char_info(&mut self, slot: u32) -> (r: (SecurityReply, u32))
        ensures
            final(self).sec_data == (SecurityData { magic: SESSION_MAGIC, slot: slot as u8, sel_char: 1 }),
            r.0 == accepted_reply(old(self).bb_guildcard, final(self).sec_data),
            r.1 == slot,
            final(self).team_id == old(self).team_id,
            final(self).bb_guildcard == old(self).bb_guildcard,
            final(self).ships == old(self).ships,
    {
        self.sec_data.slot = slot as u8;
        self.sec_data.sel_char = 1;
        self.sec_data.magic = SESSION_MAGIC;
        let reply = SecurityReply {
            err_code: 0,
            tag: 0x0001_0000,
            guildcard: self.bb_guildcard,
            team_id: 0xFFFF_FFFF,
            security_data: self.sec_data,
            caps: 0x0000_0101,
        };
        (reply, slot)
    }

    /// The older login flow's answer to the shipgate's login challenge
    /// result `status`: a reply carrying the status with a fixed guild card
    /// (1000000), team (1) and session; on success (status 0) the client is
    /// then redirected to 127.0.0.1, port 12001.
    pub fn handle_sg_login_ack(status: u32) -> (r: (SecurityReply, Option<(u32, u16)>))
        ensures
            r.0 == (SecurityReply {
                err_code: status,
                tag: 0x0001_0000,
                guildcard: 1000000,
                team_id: 1,
                security_data: fresh_security(),
                caps: 0x0000_0102,
            }),
            status == 0 ==> r.1 == Some((0x7F00_0001u32, 12001u16)),
            status != 0 ==> r.1 is None,
    {
        let reply = SecurityReply {
            err_code: status,
            tag: 0x0001_0000,
            guildcard: 1000000,
            team_id: 1,
            security_data: SecurityData { magic: SESSION_MAGIC, slot: 0, sel_char: 0 },
            caps: 0x0000_0102,
        };
        if status == 0 {
            (reply, Some((0x7F00_0001, 12001)))
        } else {
            (reply, None)
        }
    }

    /// The message sent for a pick from an unknown menu.
    pub fn invalid_menu_message() -> (r: String)
        ensures
            r@ == "Invalid menu"@,
    {
        String::from_str("Invalid menu")
    }

    /// The answer to a pick of `item` from menu `menu`: on the ship menu
    /// (0), with a ship list, item `n` is the list's `n`th ship (counting
    /// from 1).
    pub fn menu_select(&self, menu: u32, item: u32) -> (r: LoginMenuChoice)
        requires
            menu == 0 && self.ships is Some ==> item >= 1,
        ensures
            menu != 0 ==> r == LoginMenuChoice::InvalidMenu,
            menu == 0 && self.ships is None ==> r == LoginMenuChoice::Ignore,
            menu == 0 ==> (self.ships matches Some(s) ==> (if item - 1 < s@.len() {
                r == (LoginMenuChoice::Redirect { ip: s@[item - 1].ip, port: s@[item - 1].port })
            } else {
                r == LoginMenuChoice::Drop
            })),
    {
        if menu == 0 {
            match &self.ships {
                Some(s) => {
                    let idx = item as usize - 1;
                    if idx < s.len() {
                        LoginMenuChoice::Redirect { ip: s[idx].ip, port: s[idx].port }
                    } else {
                        LoginMenuChoice::Drop
                    }
                },
                None => LoginMenuChoice::Ignore,
            }
        } else {
            LoginMenuChoice::InvalidMenu
        }
    }

    /// The guild card header a client asking for its guild cards is sent.
    pub fn bb_guildcard_req() -> (r: GuildCardHdr)
        ensures
            r.one == 1,
            r.len == GUILDCARD_LEN,
            r.checksum == crc32_ieee(guildcard_file()),
    {
        let data = zeros(GUILDCARD_LEN);
        let checksum = checksum_ieee(data.as_slice());
        GuildCardHdr { one: 1, len: GUILDCARD_LEN as u32, checksum }
    }

    /// The chunk of guild card data a client asks for: when it wants more
    /// (`cont`), chunk `chunk` of the file (its number and zero bytes of the
    /// chunk's size); else nothing. Chunks start inside the file.
    pub fn bb_guildcard_chunk_req(chunk: u32, cont: bool) -> (r: Option<(u32, Vec<u8>)>)
        requires
            cont ==> chunk * GUILDCARD_CHUNK <= GUILDCARD_LEN,
        ensures
            !cont ==> r is None,
            cont ==> (r matches Some((c, data)) && c == chunk && data@ == Seq::new(
                guildcard_chunk_size(chunk) as nat,
                |_i: int| 0u8,
            )),
    {
        if cont {
            let size_remaining: usize = GUILDCARD_LEN - (chunk as usize * GUILDCARD_CHUNK);
            let size: usize = if size_remaining < GUILDCARD_CHUNK { size_remaining } else { GUILDCARD_CHUNK };
            Some((chunk, zeros(size)))
        } else {
            None
        }
    }

    /// The chunk of the parameter files a client asks for, if there is one.
    pub fn bb_param_chunk_req<T>(chunks: &Vec<T>, chunk: u32) -> (r: Option<&T>)
        ensures
            chunk < chunks@.len() ==> r == Some(&chunks@[chunk as int]),
            chunk >= chunks@.len() ==> r is None,
    {
        if (chunk as usize) < chunks.len() {
            Some(&chunks[chunk as usize])
        } else {
            None
        }
    }

    /// What a client that asks for a chunk the parameter files do not
    /// have is told.
    pub fn invalid_chunk_message() -> (r: String)
        ensures
            r@ == "Whoops, you requested a chunk in the param table that doesn't exist."@,
    {
        String::from_str("Whoops, you requested a chunk in the param table that doesn't exist.")
    }

    /// The header of the parameter files, which a client asks for: the
    /// number of files and their entries.
    pub fn bb_param_hdr_req(files: &ParamFiles) -> (r: (u32, &Vec<ParamHeader>))
        ensures
            r.0 == files.count,
            r.1 == &files.headers,
    {
        (files.count, &files.headers)
    }

    /// The client reported the checksum of its files: the server accepts
    /// any.
    pub fn bb_checksum(checksum: u32) -> (r: bool)
        ensures
            r,
    {
        true
    }
}

} // verus!
