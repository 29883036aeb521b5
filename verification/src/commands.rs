//! The five moderator commands (`ban`, `unban`, `force_unban`, `pit`,
//! `unpit`) as state machines: `begin` gives the first outside action, and
//! `step` takes what that action came back with and gives the next one,
//! until the run finishes.
use crate::action::{Action, Failure, FailureKind};
use crate::models::{ban_record, pit_record, DiscordConfig, NewUserBan, NewUserPit};
use crate::replies::{Configured, LogLine, Notice};
use vstd::prelude::*;

verus! {

/// The five commands.
#[derive(Debug, Clone, Copy, PartialEq, Eq)]
pub enum Command {
    Ban,
    Unban,
    ForceUnban,
    Pit,
    Unpit,
}

/// Where a `ban` run waits.
#[derive(Debug, Clone, Copy, PartialEq, Eq)]
pub enum BanStage {
    Inserting,
    FetchingMember,
    Resolving,
    Messaging,
    Banning,
    ReportingFailure,
    Undoing,
    Replying,
}

/// Where an `unban` run waits.
#[derive(Debug, Clone, Copy, PartialEq, Eq)]
pub enum UnbanStage {
    Removing,
    Unbanning,
    ReportingFailure,
    Undoing,
    Replying,
}

/// Where a `force_unban` run waits.
#[derive(Debug, Clone, Copy, PartialEq, Eq)]
pub enum ForceUnbanStage {
    Removing,
    Replying,
}

/// Where a `pit` run waits.
#[derive(Debug, Clone, Copy, PartialEq, Eq)]
pub enum PitStage {
    Inserting,
    FetchingMember,
    ChangingRole,
    ReportingSuccess,
    Resolving,
    Messaging,
    ReportingFailure,
    Undoing,
    Replying,
}

/// Where an `unpit` run waits.
#[derive(Debug, Clone, Copy, PartialEq, Eq)]
pub enum UnpitStage {
    Removing,
    FetchingMember,
    ChangingRole,
    ReportingSuccess,
    Resolving,
    Messaging,
    ReportingFailure,
    Undoing,
    Replying,
}

/// Where a run waits, or how it ended.
#[derive(Debug, PartialEq, Eq)]
pub enum Stage {
    Ban(BanStage),
    Unban(UnbanStage),
    ForceUnban(ForceUnbanStage),
    Pit(PitStage),
    Unpit(UnpitStage),
    Finished(Result<(), String>),
}

/// A command in progress: the user it is about, the moderator who issued
/// it, the channel it was issued in, and its stage.
#[derive(Debug, PartialEq, Eq)]
pub struct CommandRun {
    pub target: u64,
    pub moderator: u64,
    pub channel: u64,
    pub stage: Stage,
}

/// The outcome of an outside action: done, or failed with an error. A run
/// that stops on a failure ends with the failure's display text.
pub type Outcome = Result<(), Failure>;

/// The run moved on to `stage`.
pub open spec fn at(run: CommandRun, stage: Stage) -> CommandRun {
    CommandRun { stage, ..run }
}

/// The run ends with `result`.
pub open spec fn finish(run: CommandRun, result: Result<(), String>) -> (CommandRun, Action) {
    (at(run, Stage::Finished(result)), Action::Finish(result))
}

/// The run ends with the outcome of its last action: its error propagates,
/// as its display text.
pub open spec fn conclude(run: CommandRun, ev: Outcome) -> (CommandRun, Action) {
    match ev {
        Ok(()) => finish(run, Ok(())),
        Err(f) => finish(run, Err(f.message)),
    }
}

/// A message to the channel the command was issued in.
pub open spec fn reply(run: CommandRun, notice: Notice, log: Option<LogLine>) -> Action {
    Action::Send { channel: run.channel, notice, log }
}

/// The first stage and action of a command.
pub open spec fn command_start(
    cmd: Command,
    target: u64,
    moderator: u64,
    channel: u64,
) -> (CommandRun, Action) {
    let run = CommandRun { target, moderator, channel, stage: Stage::Finished(Ok(())) };
    match cmd {
        Command::Ban => (
            at(run, Stage::Ban(BanStage::Inserting)),
            Action::InsertBan(NewUserBan { id: target, banned: true, moderator }),
        ),
        Command::Unban => (
            at(run, Stage::Unban(UnbanStage::Removing)),
            Action::RemoveRecord { user: target },
        ),
        Command::ForceUnban => (
            at(run, Stage::ForceUnban(ForceUnbanStage::Removing)),
            Action::RemoveRecord { user: target },
        ),
        Command::Pit => (
            at(run, Stage::Pit(PitStage::Inserting)),
            Action::InsertPit(NewUserPit { id: target, pitted: true, moderator }),
        ),
        Command::Unpit => (
            at(run, Stage::Unpit(UnpitStage::Removing)),
            Action::RemoveRecord { user: target },
        ),
    }
}

/// The `ban` command: record the ban, then, if the user is in the guild,
/// message them and ban them (removing the record again if the ban fails);
/// if not, tell the moderator the user is on the watchlist.
pub open spec fn ban_next(cfg: DiscordConfig, run: CommandRun, s: BanStage, ev: Outcome) -> (
    CommandRun,
    Action,
) {
    let u = run.target;
    match s {
        BanStage::Inserting => match ev {
            Ok(()) => (
                at(run, Stage::Ban(BanStage::FetchingMember)),
                Action::FetchMember { guild: cfg.guild_id, user: u },
            ),
            Err(f) => match f.kind {
                FailureKind::UniqueViolation => (
                    at(run, Stage::Ban(BanStage::Replying)),
                    reply(run, Notice::AlreadyBanned { user: u }, None),
                ),
                FailureKind::OtherDatabase => finish(run, Ok(())),
                FailureKind::Other => (
                    at(run, Stage::Ban(BanStage::Replying)),
                    reply(
                        run,
                        Notice::NotBanned { user: u, trace: f.trace },
                        Some(LogLine::AddBanError { trace: f.trace }),
                    ),
                ),
            },
        },
        BanStage::FetchingMember => match ev {
            Ok(()) => (at(run, Stage::Ban(BanStage::Resolving)), Action::ResolveUser { user: u }),
            Err(_) => (
                at(run, Stage::Ban(BanStage::Replying)),
                reply(run, Notice::BanWatchlisted { user: u }, None),
            ),
        },
        BanStage::Resolving => match ev {
            Ok(()) => (
                at(run, Stage::Ban(BanStage::Messaging)),
                Action::DirectMessage {
                    user: u,
                    notice: Notice::Configured { which: Configured::Ban },
                },
            ),
            Err(f) => finish(run, Err(f.message)),
        },
        BanStage::Messaging => match ev {
            Ok(()) => (
                at(run, Stage::Ban(BanStage::Banning)),
                Action::BanMember { guild: cfg.guild_id, user: u, delete_message_days: 7 },
            ),
            Err(f) => finish(run, Err(f.message)),
        },
        BanStage::Banning => match ev {
            Ok(()) => (
                at(run, Stage::Ban(BanStage::Replying)),
                reply(run, Notice::Banned { user: u }, None),
            ),
            Err(f) => (
                at(run, Stage::Ban(BanStage::ReportingFailure)),
                reply(
                    run,
                    Notice::BanFailed { user: u, trace: f.trace },
                    Some(LogLine::AddBanError { trace: f.trace }),
                ),
            ),
        },
        BanStage::ReportingFailure => match ev {
            Ok(()) => (at(run, Stage::Ban(BanStage::Undoing)), Action::RemoveRecord { user: u }),
            Err(f) => finish(run, Err(f.message)),
        },
        BanStage::Undoing => conclude(run, ev),
        BanStage::Replying => conclude(run, ev),
    }
}

/// The `unban` command: remove the record, then lift the ban (recording the
/// ban again if that fails).
pub open spec fn unban_next(cfg: DiscordConfig, run: CommandRun, s: UnbanStage, ev: Outcome) -> (
    CommandRun,
    Action,
) {
    let u = run.target;
    match s {
        UnbanStage::Removing => match ev {
            Ok(()) => (
                at(run, Stage::Unban(UnbanStage::Unbanning)),
                Action::UnbanMember { guild: cfg.guild_id, user: u },
            ),
            Err(f) => (
                at(run, Stage::Unban(UnbanStage::Replying)),
                reply(
                    run,
                    Notice::NotPardoned { user: u, trace: f.trace },
                    Some(LogLine::RemoveBanError { trace: f.trace }),
                ),
            ),
        },
        UnbanStage::Unbanning => match ev {
            Ok(()) => (
                at(run, Stage::Unban(UnbanStage::Replying)),
                reply(run, Notice::Pardoned { user: u }, None),
            ),
            Err(f) => (
                at(run, Stage::Unban(UnbanStage::ReportingFailure)),
                reply(
                    run,
                    Notice::NotPardoned { user: u, trace: f.trace },
                    Some(LogLine::RemoveBanError { trace: f.trace }),
                ),
            ),
        },
        UnbanStage::ReportingFailure => match ev {
            Ok(()) => (
                at(run, Stage::Unban(UnbanStage::Undoing)),
                Action::InsertBan(NewUserBan { id: u, banned: true, moderator: run.moderator }),
            ),
            Err(f) => finish(run, Err(f.message)),
        },
        UnbanStage::Undoing => conclude(run, ev),
        UnbanStage::Replying => conclude(run, ev),
    }
}

/// The `force_unban` command: remove the record and say so.
pub open spec fn force_unban_next(run: CommandRun, s: ForceUnbanStage, ev: Outcome) -> (
    CommandRun,
    Action,
) {
    let u = run.target;
    match s {
        ForceUnbanStage::Removing => match ev {
            Ok(()) => (
                at(run, Stage::ForceUnban(ForceUnbanStage::Replying)),
                reply(run, Notice::Pardoned { user: u }, None),
            ),
            Err(f) => (
                at(run, Stage::ForceUnban(ForceUnbanStage::Replying)),
                reply(
                    run,
                    Notice::NotPardoned { user: u, trace: f.trace },
                    Some(LogLine::RemoveBanError { trace: f.trace }),
                ),
            ),
        },
        ForceUnbanStage::Replying => conclude(run, ev),
    }
}

/// The `pit` command: record the pit, then, if the user is in the guild,
/// give them the pit role (removing the record again if that fails), report
/// and message them; if not, tell the moderator the user is on the watchlist.
pub open spec fn pit_next(cfg: DiscordConfig, run: CommandRun, s: PitStage, ev: Outcome) -> (
    CommandRun,
    Action,
) {
    let u = run.target;
    match s {
        PitStage::Inserting => match ev {
            Ok(()) => (
                at(run, Stage::Pit(PitStage::FetchingMember)),
                Action::FetchMember { guild: cfg.guild_id, user: u },
            ),
            Err(f) => match f.kind {
                FailureKind::UniqueViolation => (
                    at(run, Stage::Pit(PitStage::Replying)),
                    reply(run, Notice::AlreadyPitted { user: u }, None),
                ),
                FailureKind::OtherDatabase => finish(run, Ok(())),
                FailureKind::Other => (
                    at(run, Stage::Pit(PitStage::Replying)),
                    reply(
                        run,
                        Notice::NotPitted { user: u, trace: f.trace },
                        Some(LogLine::AddPitError { trace: f.trace }),
                    ),
                ),
            },
        },
        PitStage::FetchingMember => match ev {
            Ok(()) => (
                at(run, Stage::Pit(PitStage::ChangingRole)),
                Action::AddRole { guild: cfg.guild_id, user: u, role: cfg.pit_role },
            ),
            Err(_) => (
                at(run, Stage::Pit(PitStage::Replying)),
                reply(run, Notice::PitWatchlisted { user: u }, None),
            ),
        },
        PitStage::ChangingRole => match ev {
            Ok(()) => (
                at(run, Stage::Pit(PitStage::ReportingSuccess)),
                reply(run, Notice::Pitted { user: u }, None),
            ),
            Err(f) => (
                at(run, Stage::Pit(PitStage::ReportingFailure)),
                reply(run, Notice::NotPitted { user: u, trace: f.trace }, None),
            ),
        },
        PitStage::ReportingSuccess => match ev {
            Ok(()) => (at(run, Stage::Pit(PitStage::Resolving)), Action::ResolveUser { user: u }),
            Err(f) => finish(run, Err(f.message)),
        },
        PitStage::Resolving => match ev {
            Ok(()) => (
                at(run, Stage::Pit(PitStage::Messaging)),
                Action::DirectMessage {
                    user: u,
                    notice: Notice::Configured { which: Configured::Pit },
                },
            ),
            Err(f) => finish(run, Err(f.message)),
        },
        PitStage::Messaging => conclude(run, ev),
        PitStage::ReportingFailure => match ev {
            Ok(()) => (at(run, Stage::Pit(PitStage::Undoing)), Action::RemoveRecord { user: u }),
            Err(f) => finish(run, Err(f.message)),
        },
        PitStage::Undoing => conclude(run, ev),
        PitStage::Replying => conclude(run, ev),
    }
}

/// The `unpit` command: remove the record, then, if the user is in the
/// guild, take the pit role (recording the pit again if that fails), report
/// and message them; if not, say they left the watchlist.
pub open spec fn unpit_next(cfg: DiscordConfig, run: CommandRun, s: UnpitStage, ev: Outcome) -> (
    CommandRun,
    Action,
) {
    let u = run.target;
    match s {
        UnpitStage::Removing => match ev {
            Ok(()) => (
                at(run, Stage::Unpit(UnpitStage::FetchingMember)),
                Action::FetchMember { guild: cfg.guild_id, user: u },
            ),
            Err(f) => (
                at(run, Stage::Unpit(UnpitStage::Replying)),
                reply(
                    run,
                    Notice::PitRemovalFailed { trace: f.trace },
                    Some(LogLine::RemovePitError { trace: f.trace }),
                ),
            ),
        },
        UnpitStage::FetchingMember => match ev {
            Ok(()) => (
                at(run, Stage::Unpit(UnpitStage::ChangingRole)),
                Action::RemoveRole { guild: cfg.guild_id, user: u, role: cfg.pit_role },
            ),
            Err(_) => (
                at(run, Stage::Unpit(UnpitStage::Replying)),
                reply(run, Notice::PitUnwatched { user: u }, None),
            ),
        },
        UnpitStage::ChangingRole => match ev {
            Ok(()) => (
                at(run, Stage::Unpit(UnpitStage::ReportingSuccess)),
                reply(run, Notice::Unpitted { user: u }, None),
            ),
            Err(f) => (
                at(run, Stage::Unpit(UnpitStage::ReportingFailure)),
                reply(run, Notice::PitRemovalFailed { trace: f.trace }, None),
            ),
        },
        UnpitStage::ReportingSuccess => match ev {
            Ok(()) => (
                at(run, Stage::Unpit(UnpitStage::Resolving)),
                Action::ResolveUser { user: u },
            ),
            Err(f) => finish(run, Err(f.message)),
        },
        UnpitStage::Resolving => match ev {
            Ok(()) => (
                at(run, Stage::Unpit(UnpitStage::Messaging)),
                Action::DirectMessage {
                    user: u,
                    notice: Notice::Configured { which: Configured::Unpit },
                },
            ),
            Err(f) => finish(run, Err(f.message)),
        },
        UnpitStage::Messaging => conclude(run, ev),
        UnpitStage::ReportingFailure => match ev {
            Ok(()) => (
                at(run, Stage::Unpit(UnpitStage::Undoing)),
                Action::InsertPit(NewUserPit { id: u, pitted: true, moderator: run.moderator }),
            ),
            Err(f) => finish(run, Err(f.message)),
        },
        UnpitStage::Undoing => conclude(run, ev),
        UnpitStage::Replying => conclude(run, ev),
    }
}

/// The next stage and action of a run, given the outcome of its last action.
/// A finished run stays finished and repeats its result.
pub open spec fn command_next(cfg: DiscordConfig, run: CommandRun, ev: Outcome) -> (
    CommandRun,
    Action,
) {
    match run.stage {
        Stage::Ban(s) => ban_next(cfg, run, s, ev),
        Stage::Unban(s) => unban_next(cfg, run, s, ev),
        Stage::ForceUnban(s) => force_unban_next(run, s, ev),
        Stage::Pit(s) => pit_next(cfg, run, s, ev),
        Stage::Unpit(s) => unpit_next(cfg, run, s, ev),
        Stage::Finished(r) => (run, Action::Finish(r)),
    }
}

/// The run and the action after `i` outcomes of the command started by
/// `cmd`: the action at index `i` is the one whose outcome is `events[i]`.
pub open spec fn command_state(
    cfg: DiscordConfig,
    cmd: Command,
    target: u64,
    moderator: u64,
    channel: u64,
    events: Seq<Outcome>,
    i: nat,
) -> (CommandRun, Action)
    decreases i,
{
    if i == 0 {
        command_start(cmd, target, moderator, channel)
    } else {
        command_next(
            cfg,
            command_state(cfg, cmd, target, moderator, channel, events, (i - 1) as nat).0,
            events[i - 1],
        )
    }
}

fn moved(run: &CommandRun, stage: Stage) -> (r: CommandRun)
    ensures
        r == at(*run, stage),
{
    CommandRun { target: run.target, moderator: run.moderator, channel: run.channel, stage }
}

fn finished(run: &CommandRun, result: Result<(), String>) -> (r: (CommandRun, Action))
    ensures
        r == finish(*run, result),
{
    let a = Action::Finish(copy_result(&result));
    (moved(run, Stage::Finished(result)), a)
}

fn copy_result(r: &Result<(), String>) -> (c: Result<(), String>)
    ensures
        c == *r,
{
    match r {
        Ok(v) => Ok(*v),
        Err(s) => Err(s.clone()),
    }
}

fn concluded(run: &CommandRun, ev: Outcome) -> (r: (CommandRun, Action))
    ensures
        r == conclude(*run, ev),
{
    match ev {
        Ok(()) => finished(run, Ok(())),
        Err(f) => finished(run, Err(f.message)),
    }
}

fn replying(run: &CommandRun, notice: Notice, log: Option<LogLine>) -> (r: Action)
    ensures
        r == reply(*run, notice, log),
{
    Action::Send { channel: run.channel, notice, log }
}

/// Starts a command against `target`, issued by `moderator` in `channel`.
pub fn begin(cmd: Command, target: u64, moderator: u64, channel: u64) -> (r: (CommandRun, Action))
    ensures
        r == command_start(cmd, target, moderator, channel),
{
    let run = CommandRun { target, moderator, channel, stage: Stage::Finished(Ok(())) };
    match cmd {
        Command::Ban => (
            moved(&run, Stage::Ban(BanStage::Inserting)),
            Action::InsertBan(ban_record(target, moderator)),
        ),
        Command::Unban => (
            moved(&run, Stage::Unban(UnbanStage::Removing)),
            Action::RemoveRecord { user: target },
        ),
        Command::ForceUnban => (
            moved(&run, Stage::ForceUnban(ForceUnbanStage::Removing)),
            Action::RemoveRecord { user: target },
        ),
        Command::Pit => (
            moved(&run, Stage::Pit(PitStage::Inserting)),
            Action::InsertPit(pit_record(target, moderator)),
        ),
        Command::Unpit => (
            moved(&run, Stage::Unpit(UnpitStage::Removing)),
            Action::RemoveRecord { user: target },
        ),
    }
}

fn ban_step(cfg: &DiscordConfig, run: &CommandRun, s: BanStage, ev: Outcome) -> (r: (
    CommandRun,
    Action,
))
    ensures
        r == ban_next(*cfg, *run, s, ev),
{
    let u = run.target;
    match s {
        BanStage::Inserting => match ev {
            Ok(()) => (
                moved(run, Stage::Ban(BanStage::FetchingMember)),
                Action::FetchMember { guild: cfg.guild_id, user: u },
            ),
            Err(f) => match f.kind {
                FailureKind::UniqueViolation => (
                    moved(run, Stage::Ban(BanStage::Replying)),
                    replying(run, Notice::AlreadyBanned { user: u }, None),
                ),
                FailureKind::OtherDatabase => finished(run, Ok(())),
                FailureKind::Other => (
                    moved(run, Stage::Ban(BanStage::Replying)),
                    replying(
                        run,
                        Notice::NotBanned { user: u, trace: f.trace.clone() },
                        Some(LogLine::AddBanError { trace: f.trace }),
                    ),
                ),
            },
        },
        BanStage::FetchingMember => match ev {
            Ok(()) => (moved(run, Stage::Ban(BanStage::Resolving)), Action::ResolveUser { user: u }),
            Err(_) => (
                moved(run, Stage::Ban(BanStage::Replying)),
                replying(run, Notice::BanWatchlisted { user: u }, None),
            ),
        },
        BanStage::Resolving => match ev {
            Ok(()) => (
                moved(run, Stage::Ban(BanStage::Messaging)),
                Action::DirectMessage {
                    user: u,
                    notice: Notice::Configured { which: Configured::Ban },
                },
            ),
            Err(f) => finished(run, Err(f.message)),
        },
        BanStage::Messaging => match ev {
            Ok(()) => (
                moved(run, Stage::Ban(BanStage::Banning)),
                Action::BanMember { guild: cfg.guild_id, user: u, delete_message_days: 7 },
            ),
            Err(f) => finished(run, Err(f.message)),
        },
        BanStage::Banning => match ev {
            Ok(()) => (
                moved(run, Stage::Ban(BanStage::Replying)),
                replying(run, Notice::Banned { user: u }, None),
            ),
            Err(f) => (
                moved(run, Stage::Ban(BanStage::ReportingFailure)),
                replying(
                    run,
                    Notice::BanFailed { user: u, trace: f.trace.clone() },
                    Some(LogLine::AddBanError { trace: f.trace }),
                ),
            ),
        },
        BanStage::ReportingFailure => match ev {
            Ok(()) => (moved(run, Stage::Ban(BanStage::Undoing)), Action::RemoveRecord { user: u }),
            Err(f) => finished(run, Err(f.message)),
        },
        BanStage::Undoing => concluded(run, ev),
        BanStage::Replying => concluded(run, ev),
    }
}

fn unban_step(cfg: &DiscordConfig, run: &CommandRun, s: UnbanStage, ev: Outcome) -> (r: (
    CommandRun,
    Action,
))
    ensures
        r == unban_next(*cfg, *run, s, ev),
{
    let u = run.target;
    match s {
        UnbanStage::Removing => match ev {
            Ok(()) => (
                moved(run, Stage::Unban(UnbanStage::Unbanning)),
                Action::UnbanMember { guild: cfg.guild_id, user: u },
            ),
            Err(f) => (
                moved(run, Stage::Unban(UnbanStage::Replying)),
                replying(
                    run,
                    Notice::NotPardoned { user: u, trace: f.trace.clone() },
                    Some(LogLine::RemoveBanError { trace: f.trace }),
                ),
            ),
        },
        UnbanStage::Unbanning => match ev {
            Ok(()) => (
                moved(run, Stage::Unban(UnbanStage::Replying)),
                replying(run, Notice::Pardoned { user: u }, None),
            ),
            Err(f) => (
                moved(run, Stage::Unban(UnbanStage::ReportingFailure)),
                replying(
                    run,
                    Notice::NotPardoned { user: u, trace: f.trace.clone() },
                    Some(LogLine::RemoveBanError { trace: f.trace }),
                ),
            ),
        },
        UnbanStage::ReportingFailure => match ev {
            Ok(()) => (
                moved(run, Stage::Unban(UnbanStage::Undoing)),
                Action::InsertBan(ban_record(u, run.moderator)),
            ),
            Err(f) => finished(run, Err(f.message)),
        },
        UnbanStage::Undoing => concluded(run, ev),
        UnbanStage::Replying => concluded(run, ev),
    }
}

fn force_unban_step(run: &CommandRun, s: ForceUnbanStage, ev: Outcome) -> (r: (
    CommandRun,
    Action,
))
    ensures
        r == force_unban_next(*run, s, ev),
{
    let u = run.target;
    match s {
        ForceUnbanStage::Removing => match ev {
            Ok(()) => (
                moved(run, Stage::ForceUnban(ForceUnbanStage::Replying)),
                replying(run, Notice::Pardoned { user: u }, None),
            ),
            Err(f) => (
                moved(run, Stage::ForceUnban(ForceUnbanStage::Replying)),
                replying(
                    run,
                    Notice::NotPardoned { user: u, trace: f.trace.clone() },
                    Some(LogLine::RemoveBanError { trace: f.trace }),
                ),
            ),
        },
        ForceUnbanStage::Replying => concluded(run, ev),
    }
}

fn pit_step(cfg: &DiscordConfig, run: &CommandRun, s: PitStage, ev: Outcome) -> (r: (
    CommandRun,
    Action,
))
    ensures
        r == pit_next(*cfg, *run, s, ev),
{
    let u = run.target;
    match s {
        PitStage::Inserting => match ev {
            Ok(()) => (
                moved(run, Stage::Pit(PitStage::FetchingMember)),
                Action::FetchMember { guild: cfg.guild_id, user: u },
            ),
            Err(f) => match f.kind {
                FailureKind::UniqueViolation => (
                    moved(run, Stage::Pit(PitStage::Replying)),
                    replying(run, Notice::AlreadyPitted { user: u }, None),
                ),
                FailureKind::OtherDatabase => finished(run, Ok(())),
                FailureKind::Other => (
                    moved(run, Stage::Pit(PitStage::Replying)),
                    replying(
                        run,
                        Notice::NotPitted { user: u, trace: f.trace.clone() },
                        Some(LogLine::AddPitError { trace: f.trace }),
                    ),
                ),
            },
        },
        PitStage::FetchingMember => match ev {
            Ok(()) => (
                moved(run, Stage::Pit(PitStage::ChangingRole)),
                Action::AddRole { guild: cfg.guild_id, user: u, role: cfg.pit_role },
            ),
            Err(_) => (
                moved(run, Stage::Pit(PitStage::Replying)),
                replying(run, Notice::PitWatchlisted { user: u }, None),
            ),
        },
        PitStage::ChangingRole => match ev {
            Ok(()) => (
                moved(run, Stage::Pit(PitStage::ReportingSuccess)),
                replying(run, Notice::Pitted { user: u }, None),
            ),
            Err(f) => (
                moved(run, Stage::Pit(PitStage::ReportingFailure)),
                replying(run, Notice::NotPitted { user: u, trace: f.trace }, None),
            ),
        },
        PitStage::ReportingSuccess => match ev {
            Ok(()) => (moved(run, Stage::Pit(PitStage::Resolving)), Action::ResolveUser { user: u }),
            Err(f) => finished(run, Err(f.message)),
        },
        PitStage::Resolving => match ev {
            Ok(()) => (
                moved(run, Stage::Pit(PitStage::Messaging)),
                Action::DirectMessage {
                    user: u,
                    notice: Notice::Configured { which: Configured::Pit },
                },
            ),
            Err(f) => finished(run, Err(f.message)),
        },
        PitStage::Messaging => concluded(run, ev),
        PitStage::ReportingFailure => match ev {
            Ok(()) => (moved(run, Stage::Pit(PitStage::Undoing)), Action::RemoveRecord { user: u }),
            Err(f) => finished(run, Err(f.message)),
        },
        PitStage::Undoing => concluded(run, ev),
        PitStage::Replying => concluded(run, ev),
    }
}

fn unpit_step(cfg: &DiscordConfig, run: &CommandRun, s: UnpitStage, ev: Outcome) -> (r: (
    CommandRun,
    Action,
))
    ensures
        r == unpit_next(*cfg, *run, s, ev),
{
    let u = run.target;
    match s {
        UnpitStage::Removing => match ev {
            Ok(()) => (
                moved(run, Stage::Unpit(UnpitStage::FetchingMember)),
                Action::FetchMember { guild: cfg.guild_id, user: u },
            ),
            Err(f) => (
                moved(run, Stage::Unpit(UnpitStage::Replying)),
                replying(
                    run,
                    Notice::PitRemovalFailed { trace: f.trace.clone() },
                    Some(LogLine::RemovePitError { trace: f.trace }),
                ),
            ),
        },
        UnpitStage::FetchingMember => match ev {
            Ok(()) => (
                moved(run, Stage::Unpit(UnpitStage::ChangingRole)),
                Action::RemoveRole { guild: cfg.guild_id, user: u, role: cfg.pit_role },
            ),
            Err(_) => (
                moved(run, Stage::Unpit(UnpitStage::Replying)),
                replying(run, Notice::PitUnwatched { user: u }, None),
            ),
        },
        UnpitStage::ChangingRole => match ev {
            Ok(()) => (
                moved(run, Stage::Unpit(UnpitStage::ReportingSuccess)),
                replying(run, Notice::Unpitted { user: u }, None),
            ),
            Err(f) => (
                moved(run, Stage::Unpit(UnpitStage::ReportingFailure)),
                replying(run, Notice::PitRemovalFailed { trace: f.trace }, None),
            ),
        },
        UnpitStage::ReportingSuccess => match ev {
            Ok(()) => (
                moved(run, Stage::Unpit(UnpitStage::Resolving)),
                Action::ResolveUser { user: u },
            ),
            Err(f) => finished(run, Err(f.message)),
        },
        UnpitStage::Resolving => match ev {
            Ok(()) => (
                moved(run, Stage::Unpit(UnpitStage::Messaging)),
                Action::DirectMessage {
                    user: u,
                    notice: Notice::Configured { which: Configured::Unpit },
                },
            ),
            Err(f) => finished(run, Err(f.message)),
        },
        UnpitStage::Messaging => concluded(run, ev),
        UnpitStage::ReportingFailure => match ev {
            Ok(()) => (
                moved(run, Stage::Unpit(UnpitStage::Undoing)),
                Action::InsertPit(pit_record(u, run.moderator)),
            ),
            Err(f) => finished(run, Err(f.message)),
        },
        UnpitStage::Undoing => concluded(run, ev),
        UnpitStage::Replying => concluded(run, ev),
    }
}

/// Moves a run on by the outcome of its last action: the next stage, and the
/// next action to perform.
pub fn step(cfg: &DiscordConfig, run: CommandRun, ev: Outcome) -> (r: (CommandRun, Action))
    ensures
        r == command_next(*cfg, run, ev),
{
    match run.stage {
        Stage::Ban(s) => ban_step(cfg, &run, s, ev),
        Stage::Unban(s) => unban_step(cfg, &run, s, ev),
        Stage::ForceUnban(s) => force_unban_step(&run, s, ev),
        Stage::Pit(s) => pit_step(cfg, &run, s, ev),
        Stage::Unpit(s) => unpit_step(cfg, &run, s, ev),
        Stage::Finished(ref res) => {
            let a = Action::Finish(copy_result(res));
            (run, a)
        },
    }
}

} // verus!
