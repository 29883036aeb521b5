//! The outside work that the bot's decisions ask for, and what comes back
//! from it.
use crate::models::{NewUserBan, NewUserPit};
use crate::replies::{LogLine, Notice};
use vstd::prelude::*;

verus! {

/// What kind of error an outside action ran into: a database error on a
/// duplicate key, another database error, or any other error.
#[derive(Debug, Clone, Copy, PartialEq, Eq)]
pub enum FailureKind {
    UniqueViolation,
    OtherDatabase,
    Other,
}

/// An outside action that failed: the kind of its error, the error's debug
/// text (what the bot prints and puts in its trace logs), and its display
/// text (what a command that stops on the error returns).
#[derive(Debug, Clone, PartialEq, Eq)]
pub struct Failure {
    pub kind: FailureKind,
    pub trace: String,
    pub message: String,
}

/// Why the bot gives up with a panic.
#[derive(Debug, Clone, PartialEq, Eq)]
pub enum Abort {
    /// The watchlist could not be read.
    LoadFailed { trace: String },
    /// The member who joined could not be fetched from the guild.
    MemberUnavailable { trace: String },
    /// The member who joined could not be resolved to a user to message.
    UserUnresolved { trace: String },
}

/// One step of outside work, in the order the bot performs them.
#[derive(Debug, PartialEq, Eq)]
pub enum Action {
    /// Insert a ban row into the watchlist.
    InsertBan(NewUserBan),
    /// Insert a pit row into the watchlist.
    InsertPit(NewUserPit),
    /// Delete the user's rows from the watchlist.
    RemoveRecord { user: u64 },
    /// Read the user's rows from the watchlist.
    LoadRecords { user: u64 },
    /// Fetch the user as a member of the guild; failing means not a member.
    FetchMember { guild: u64, user: u64 },
    /// Resolve the fetched member to a user that can be messaged.
    ResolveUser { user: u64 },
    /// Send a direct message to the resolved user.
    DirectMessage { user: u64, notice: Notice },
    /// Print `log` if there is one, then send a message to a channel.
    Send { channel: u64, notice: Notice, log: Option<LogLine> },
    /// Print a line.
    Log(LogLine),
    /// Ban the member from the guild, deleting their messages of the last days.
    BanMember { guild: u64, user: u64, delete_message_days: u8 },
    /// Lift the user's ban from the guild.
    UnbanMember { guild: u64, user: u64 },
    /// Give the member a role.
    AddRole { guild: u64, user: u64, role: u64 },
    /// Take a role from the member.
    RemoveRole { guild: u64, user: u64, role: u64 },
    /// Stop: the run is over, with the command's result.
    Finish(Result<(), String>),
    /// Stop with a panic.
    Abort(Abort),
}

} // verus!
