//! The rows of the `pitboss` watchlist table and the configuration file's
//! schema, as plain values.
use vstd::prelude::*;

verus! {

/// A row of the `pitboss` watchlist table: the user it is about, whether the
/// user is to be banned or pitted on sight, and the moderator who added it.
#[derive(Debug, Clone, Copy, PartialEq, Eq)]
pub struct User {
    pub id: u64,
    pub banned: bool,
    pub pitted: bool,
    pub moderator: u64,
}

/// The row that a ban command inserts into the watchlist.
#[derive(Debug, Clone, Copy, PartialEq, Eq)]
pub struct NewUserBan {
    pub id: u64,
    pub banned: bool,
    pub moderator: u64,
}

/// The row that a pit command inserts into the watchlist.
#[derive(Debug, Clone, Copy, PartialEq, Eq)]
pub struct NewUserPit {
    pub id: u64,
    pub pitted: bool,
    pub moderator: u64,
}

/// Which of the two halves of the bot are switched on.
#[derive(Debug, Clone, Copy, PartialEq, Eq)]
pub struct CommandSchema {
    pub enable_pitboss: bool,
    pub enable_banboss: bool,
}

/// The whole configuration file.
#[derive(Debug, Clone, PartialEq, Eq)]
pub struct ConfigSchema {
    pub discord: DiscordConfig,
}

/// The Discord part of the configuration: the guild the bot watches, who may
/// command it, where it reports, the pit role, and the direct messages it sends.
#[derive(Debug, Clone, PartialEq, Eq)]
pub struct DiscordConfig {
    pub guild_id: u64,
    pub admin_roles: Vec<u64>,
    pub admin_users: Vec<u64>,
    pub report_channel: u64,
    pub pit_role: u64,
    pub commands: CommandSchema,
    pub token: String,
    pub ban_evade_msg: Embed,
    pub ban_msg: Embed,
    pub pit_evade_msg: Embed,
    pub pit_msg: Embed,
    pub unpit_msg: Embed,
}

/// The text of a direct message that the bot sends to a user.
#[derive(Debug, Clone, PartialEq, Eq)]
pub struct Embed {
    pub title: String,
    pub subtitle: String,
    pub color: u32,
    pub attract: String,
    pub warning: String,
}

/// The watchlist row that bans `id` on sight, added by `moderator`.
pub fn ban_record(id: u64, moderator: u64) -> (r: NewUserBan)
    ensures
        r == (NewUserBan { id, banned: true, moderator }),
{
    NewUserBan { id, banned: true, moderator }
}

/// The watchlist row that pits `id` on sight, added by `moderator`.
pub fn pit_record(id: u64, moderator: u64) -> (r: NewUserPit)
    ensures
        r == (NewUserPit { id, pitted: true, moderator }),
{
    NewUserPit { id, pitted: true, moderator }
}

} // verus!
