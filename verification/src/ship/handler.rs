//! The ship's answers to a client logging in.

use vstd::prelude::*;
use vstd::string::StringExecFns;

use crate::login::handler::{ChallengeStep, SecurityData, SecurityReply, SESSION_MAGIC};

verus! {

/// The ship's login handling; it keeps nothing of its own.
pub struct ShipHandler;

impl ShipHandler {
    /// Checks the security data a client logs in to the ship with: only a
    /// client with a session (set up by the login server) may; any other is
    /// told so and disconnected.
    pub fn bb_login(offered: SecurityData) -> (r: Result<(), String>)
        ensures
            offered.magic == SESSION_MAGIC ==> r is Ok,
            offered.magic != SESSION_MAGIC ==> (r matches Err(s) && s@ == "Invalid security data"@),
    {
        if offered.magic != SESSION_MAGIC {
            return Err(String::from_str("Invalid security data"));
        }
        Ok(())
    }

    /// The shipgate answered the login challenge with `status`: a status
    /// other than 0 refuses the login (the reply carries the status and the
    /// client's security data; the client is then disconnected); else the
    /// account `account_id` is fetched.
    pub fn sg_login_challenge_ack(offered: SecurityData, status: u32, account_id: u32) -> (r: ChallengeStep)
        ensures
            status != 0 ==> r == ChallengeStep::Refuse(
                SecurityReply { err_code: status, tag: 0, guildcard: 0, team_id: 0, security_data: offered, caps: 0 },
            ),
            status == 0 ==> r == ChallengeStep::FetchAccount(account_id),
    {
        if status != 0 {
            ChallengeStep::Refuse(
                SecurityReply { err_code: status, tag: 0, guildcard: 0, team_id: 0, security_data: offered, caps: 0 },
            )
        } else {
            ChallengeStep::FetchAccount(account_id)
        }
    }

    /// The shipgate sent the account data: the client is sent the accepted
    /// reply, with the account's guild card and team and the client's
    /// security data.
    pub fn sg_account_info_ack(offered: SecurityData, guildcard: u32, team_id: u32) -> (r: SecurityReply)
        ensures
            r == (SecurityReply {
                err_code: 0,
                tag: 0x0001_0000,
                guildcard,
                team_id,
                security_data: offered,
                caps: 0x0000_0102,
            }),
    {
        SecurityReply { err_code: 0, tag: 0x0001_0000, guildcard, team_id, security_data: offered, caps: 0x0000_0102 }
    }
}

} // verus!
