//! What a block keeps of each connected client: their security data, team,
//! guild card, account and, once the shipgate sent it, their character.

use vstd::prelude::*;

use crate::login::handler::SecurityData;

verus! {

/// A character as the shipgate stores it: the inventory, the character
/// data and the bank, which a client may send again to be saved, and the
/// rest of the record, each as its bytes.
#[derive(Clone, Debug)]
pub struct FullChar {
    pub inv: Vec<u8>,
    pub chara: Vec<u8>,
    pub bank: Vec<u8>,
    pub other: Vec<u8>,
}

/// The block's record of a client.
#[derive(Clone, Debug)]
pub struct BlockClient {
    pub sec_data: SecurityData,
    pub team_id: u32,
    pub bb_guildcard: u32,
    pub account_id: u32,
    /// The client's character, once it is loaded.
    pub full_char: Option<FullChar>,
}

/// A character to be stored by the shipgate: account `account_id`'s, in
/// slot `slot`.
#[derive(Debug)]
pub struct CharSave {
    pub account_id: u32,
    pub slot: u8,
    pub save_acct_data: u8,
    pub full_char: FullChar,
}

/// The record of a client that just connected: nothing known yet.
pub open spec fn fresh_client(c: BlockClient) -> bool {
    &&& c.sec_data == (SecurityData { magic: 0, slot: 0, sel_char: 0 })
    &&& c.team_id == 0
    &&& c.bb_guildcard == 0
    &&& c.account_id == 0
    &&& c.full_char is None
}

/// What is saved of client `c` when they go: their character, if one is
/// loaded, under their account and the slot they chose.
pub open spec fn save_of(c: BlockClient, s: Option<CharSave>) -> bool {
    match c.full_char {
        None => s is None,
        Some(fc) => s matches Some(cs) && cs.account_id == c.account_id && cs.slot == c.sec_data.slot
            && cs.save_acct_data == 0 && cs.full_char == fc,
    }
}

impl BlockClient {
    /// The record of a client that just connected.
    pub fn new() -> (c: BlockClient)
        ensures
            fresh_client(c),
    {
        BlockClient {
            sec_data: SecurityData { magic: 0, slot: 0, sel_char: 0 },
            team_id: 0,
            bb_guildcard: 0,
            account_id: 0,
            full_char: None,
        }
    }

    /// What is saved of this client when they go.
    pub fn into_save(self) -> (s: Option<CharSave>)
        ensures
            save_of(self, s),
    {
        match self.full_char {
            Some(fc) => Some(CharSave { account_id: self.account_id, slot: self.sec_data.slot, save_acct_data: 0, full_char: fc }),
            None => None,
        }
    }
}

} // verus!
