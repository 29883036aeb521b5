//! What the bot does when a member joins the watched guild: look the member
//! up in the watchlist, and ban or pit them again if they are on it.
use crate::action::{Abort, Action, Failure};
use crate::models::{DiscordConfig, User};
use crate::replies::{Configured, LogLine, Notice};
use vstd::prelude::*;

verus! {

/// Where a join run waits.
#[derive(Debug, Clone, Copy, PartialEq, Eq)]
pub enum JoinStage {
    Announcing,
    Loading,
    Found { banned: bool, pitted: bool },
    FetchingForBan,
    ResolvingForBan,
    WarningBanned,
    Banning,
    FetchingForPit,
    Pitting,
    ResolvingForPit,
    WarningPitted,
    Closing,
    Done,
}

/// A join in progress: the member who joined and the stage.
#[derive(Debug, Clone, Copy, PartialEq, Eq)]
pub struct JoinRun {
    pub user: u64,
    pub stage: JoinStage,
}

/// The outcome of an outside action of a join: the rows that `LoadRecords`
/// read (empty for the other actions), or the failure.
pub type JoinOutcome = Result<Vec<User>, Failure>;

/// The first stage and action when `user` joins `guild`: nothing at all
/// unless it is the watched guild.
pub open spec fn join_start(cfg: DiscordConfig, guild: u64, user: u64) -> (JoinRun, Action) {
    if guild != cfg.guild_id {
        (JoinRun { user, stage: JoinStage::Done }, Action::Finish(Ok(())))
    } else {
        (
            JoinRun { user, stage: JoinStage::Announcing },
            Action::Log(LogLine::MemberJoined { user, guild }),
        )
    }
}

/// A report to the configured report channel.
pub open spec fn report(cfg: DiscordConfig, notice: Notice) -> Action {
    Action::Send { channel: cfg.report_channel, notice, log: None }
}

/// The next stage and action of a join, given the outcome of its last action.
pub open spec fn join_next(cfg: DiscordConfig, run: JoinRun, ev: JoinOutcome) -> (JoinRun, Action) {
    let u = run.user;
    let to = |stage: JoinStage| JoinRun { user: u, stage };
    match run.stage {
        JoinStage::Announcing => (to(JoinStage::Loading), Action::LoadRecords { user: u }),
        JoinStage::Loading => match ev {
            Ok(rows) => if rows@.len() == 0 {
                (to(JoinStage::Closing), Action::Log(LogLine::NoRecords { user: u }))
            } else {
                (
                    to(JoinStage::Found { banned: rows@[0].banned, pitted: rows@[0].pitted }),
                    Action::Log(LogLine::RecordFound { user: u }),
                )
            },
            Err(f) => (to(JoinStage::Done), Action::Abort(Abort::LoadFailed { trace: f.trace })),
        },
        JoinStage::Found { banned, pitted } => if banned {
            (
                to(JoinStage::FetchingForBan),
                Action::FetchMember { guild: cfg.guild_id, user: u },
            )
        } else if pitted {
            (
                to(JoinStage::FetchingForPit),
                Action::FetchMember { guild: cfg.guild_id, user: u },
            )
        } else {
            (to(JoinStage::Done), Action::Finish(Ok(())))
        },
        JoinStage::FetchingForBan => match ev {
            Ok(_) => (to(JoinStage::ResolvingForBan), Action::ResolveUser { user: u }),
            Err(f) => (
                to(JoinStage::Done),
                Action::Abort(Abort::MemberUnavailable { trace: f.trace }),
            ),
        },
        JoinStage::ResolvingForBan => match ev {
            Ok(_) => (
                to(JoinStage::WarningBanned),
                Action::DirectMessage {
                    user: u,
                    notice: Notice::Configured { which: Configured::BanEvade },
                },
            ),
            Err(f) => (to(JoinStage::Done), Action::Abort(Abort::UserUnresolved { trace: f.trace })),
        },
        JoinStage::WarningBanned => (
            to(JoinStage::Banning),
            Action::BanMember { guild: cfg.guild_id, user: u, delete_message_days: 7 },
        ),
        JoinStage::Banning => match ev {
            Ok(_) => (to(JoinStage::Closing), report(cfg, Notice::EvaderBanned { user: u })),
            Err(f) => (
                to(JoinStage::Closing),
                report(cfg, Notice::EvaderNotBanned { user: u, trace: f.trace }),
            ),
        },
        JoinStage::FetchingForPit => match ev {
            Ok(_) => (
                to(JoinStage::Pitting),
                Action::AddRole { guild: cfg.guild_id, user: u, role: cfg.pit_role },
            ),
            Err(f) => (
                to(JoinStage::Done),
                Action::Abort(Abort::MemberUnavailable { trace: f.trace }),
            ),
        },
        JoinStage::Pitting => match ev {
            Ok(_) => (to(JoinStage::ResolvingForPit), Action::ResolveUser { user: u }),
            Err(f) => (
                to(JoinStage::Closing),
                report(cfg, Notice::EvaderNotPitted { user: u, trace: f.trace }),
            ),
        },
        JoinStage::ResolvingForPit => match ev {
            Ok(_) => (
                to(JoinStage::WarningPitted),
                Action::DirectMessage {
                    user: u,
                    notice: Notice::Configured { which: Configured::PitEvade },
                },
            ),
            Err(f) => (to(JoinStage::Done), Action::Abort(Abort::UserUnresolved { trace: f.trace })),
        },
        JoinStage::WarningPitted => (
            to(JoinStage::Closing),
            report(cfg, Notice::EvaderPitted { user: u }),
        ),
        JoinStage::Closing => (to(JoinStage::Done), Action::Finish(Ok(()))),
        JoinStage::Done => (to(JoinStage::Done), Action::Finish(Ok(()))),
    }
}

/// The run and the action after `i` outcomes of the join of `user` to
/// `guild`: the action at index `i` is the one whose outcome is `events[i]`.
pub open spec fn join_state(
    cfg: DiscordConfig,
    guild: u64,
    user: u64,
    events: Seq<JoinOutcome>,
    i: nat,
) -> (JoinRun, Action)
    decreases i,
{
    if i == 0 {
        join_start(cfg, guild, user)
    } else {
        join_next(cfg, join_state(cfg, guild, user, events, (i - 1) as nat).0, events[i - 1])
    }
}

/// Starts handling `user` joining `guild`.
pub fn begin_join(cfg: &DiscordConfig, guild: u64, user: u64) -> (r: (JoinRun, Action))
    ensures
        r == join_start(*cfg, guild, user),
{
    if guild != cfg.guild_id {
        (JoinRun { user, stage: JoinStage::Done }, Action::Finish(Ok(())))
    } else {
        (
            JoinRun { user, stage: JoinStage::Announcing },
            Action::Log(LogLine::MemberJoined { user, guild }),
        )
    }
}

fn reporting(cfg: &DiscordConfig, notice: Notice) -> (r: Action)
    ensures
        r == report(*cfg, notice),
{
    Action::Send { channel: cfg.report_channel, notice, log: None }
}

/// Moves a join on by the outcome of its last action.
pub fn join_step(cfg: &DiscordConfig, run: JoinRun, ev: JoinOutcome) -> (r: (JoinRun, Action))
    ensures
        r == join_next(*cfg, run, ev),
{
    let u = run.user;
    match run.stage {
        JoinStage::Announcing => (
            JoinRun { user: u, stage: JoinStage::Loading },
            Action::LoadRecords { user: u },
        ),
        JoinStage::Loading => match ev {
            Ok(rows) => if rows.len() == 0 {
                (
                    JoinRun { user: u, stage: JoinStage::Closing },
                    Action::Log(LogLine::NoRecords { user: u }),
                )
            } else {
                (
                    JoinRun {
                        user: u,
                        stage: JoinStage::Found { banned: rows[0].banned, pitted: rows[0].pitted },
                    },
                    Action::Log(LogLine::RecordFound { user: u }),
                )
            },
            Err(f) => (
                JoinRun { user: u, stage: JoinStage::Done },
                Action::Abort(Abort::LoadFailed { trace: f.trace }),
            ),
        },
        JoinStage::Found { banned, pitted } => if banned {
            (
                JoinRun { user: u, stage: JoinStage::FetchingForBan },
                Action::FetchMember { guild: cfg.guild_id, user: u },
            )
        } else if pitted {
            (
                JoinRun { user: u, stage: JoinStage::FetchingForPit },
                Action::FetchMember { guild: cfg.guild_id, user: u },
            )
        } else {
            (JoinRun { user: u, stage: JoinStage::Done }, Action::Finish(Ok(())))
        },
        JoinStage::FetchingForBan => match ev {
            Ok(_) => (
                JoinRun { user: u, stage: JoinStage::ResolvingForBan },
                Action::ResolveUser { user: u },
            ),
            Err(f) => (
                JoinRun { user: u, stage: JoinStage::Done },
                Action::Abort(Abort::MemberUnavailable { trace: f.trace }),
            ),
        },
        JoinStage::ResolvingForBan => match ev {
            Ok(_) => (
                JoinRun { user: u, stage: JoinStage::WarningBanned },
                Action::DirectMessage {
                    user: u,
                    notice: Notice::Configured { which: Configured::BanEvade },
                },
            ),
            Err(f) => (
                JoinRun { user: u, stage: JoinStage::Done },
                Action::Abort(Abort::UserUnresolved { trace: f.trace }),
            ),
        },
        JoinStage::WarningBanned => (
            JoinRun { user: u, stage: JoinStage::Banning },
            Action::BanMember { guild: cfg.guild_id, user: u, delete_message_days: 7 },
        ),
        JoinStage::Banning => match ev {
            Ok(_) => (
                JoinRun { user: u, stage: JoinStage::Closing },
                reporting(cfg, Notice::EvaderBanned { user: u }),
            ),
            Err(f) => (
                JoinRun { user: u, stage: JoinStage::Closing },
                reporting(cfg, Notice::EvaderNotBanned { user: u, trace: f.trace }),
            ),
        },
        JoinStage::FetchingForPit => match ev {
            Ok(_) => (
                JoinRun { user: u, stage: JoinStage::Pitting },
                Action::AddRole { guild: cfg.guild_id, user: u, role: cfg.pit_role },
            ),
            Err(f) => (
                JoinRun { user: u, stage: JoinStage::Done },
                Action::Abort(Abort::MemberUnavailable { trace: f.trace }),
            ),
        },
        JoinStage::Pitting => match ev {
            Ok(_) => (
                JoinRun { user: u, stage: JoinStage::ResolvingForPit },
                Action::ResolveUser { user: u },
            ),
            Err(f) => (
                JoinRun { user: u, stage: JoinStage::Closing },
                reporting(cfg, Notice::EvaderNotPitted { user: u, trace: f.trace }),
            ),
        },
        JoinStage::ResolvingForPit => match ev {
            Ok(_) => (
                JoinRun { user: u, stage: JoinStage::WarningPitted },
                Action::DirectMessage {
                    user: u,
                    notice: Notice::Configured { which: Configured::PitEvade },
                },
            ),
            Err(f) => (
                JoinRun { user: u, stage: JoinStage::Done },
                Action::Abort(Abort::UserUnresolved { trace: f.trace }),
            ),
        },
        JoinStage::WarningPitted => (
            JoinRun { user: u, stage: JoinStage::Closing },
            reporting(cfg, Notice::EvaderPitted { user: u }),
        ),
        JoinStage::Closing => (
            JoinRun { user: u, stage: JoinStage::Done },
            Action::Finish(Ok(())),
        ),
        JoinStage::Done => (JoinRun { user: u, stage: JoinStage::Done }, Action::Finish(Ok(()))),
    }
}

} // verus!
