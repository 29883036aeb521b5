//! What holds of every run of the commands and of the join handler: they
//! finish, they touch no one but the user they are about, a ban always comes
//! after the message that explains it, and a Discord action that fails is
//! undone in the watchlist.
use crate::action::{Action, Failure, FailureKind};
use crate::commands::{
    command_next, command_start, command_state, BanStage, Command, CommandRun, ForceUnbanStage,
    Outcome, PitStage, Stage, UnbanStage, UnpitStage,
};
use crate::join::{join_next, join_state, JoinOutcome, JoinRun, JoinStage};
use crate::models::{DiscordConfig, NewUserBan, NewUserPit, User};
use crate::replies::{Configured, Notice};
use vstd::prelude::*;

verus! {

/// Whether a message speaks of no user but `target`.
pub open spec fn notice_about(n: Notice, target: u64) -> bool {
    match n {
        Notice::AlreadyBanned { user } => user == target,
        Notice::NotBanned { user, .. } => user == target,
        Notice::BanFailed { user, .. } => user == target,
        Notice::Banned { user } => user == target,
        Notice::BanWatchlisted { user } => user == target,
        Notice::Pardoned { user } => user == target,
        Notice::NotPardoned { user, .. } => user == target,
        Notice::AlreadyPitted { user } => user == target,
        Notice::NotPitted { user, .. } => user == target,
        Notice::Pitted { user } => user == target,
        Notice::PitWatchlisted { user } => user == target,
        Notice::PitRemovalFailed { .. } => true,
        Notice::Unpitted { user } => user == target,
        Notice::PitUnwatched { user } => user == target,
        Notice::CommandDisabled { .. } => true,
        Notice::EvaderNotBanned { user, .. } => user == target,
        Notice::EvaderBanned { user } => user == target,
        Notice::EvaderNotPitted { user, .. } => user == target,
        Notice::EvaderPitted { user } => user == target,
        Notice::Configured { .. } => true,
    }
}

/// Whether an action of a command touches no one but `target`: watchlist
/// rows only for `target` (added by `moderator`), Discord calls only on
/// `target` in the watched guild with the pit role, messages only to the
/// command's channel or to `target`, and about `target`.
pub open spec fn concerns_only(
    a: Action,
    cfg: DiscordConfig,
    target: u64,
    moderator: u64,
    channel: u64,
) -> bool {
    match a {
        Action::InsertBan(r) => r == (NewUserBan { id: target, banned: true, moderator }),
        Action::InsertPit(r) => r == (NewUserPit { id: target, pitted: true, moderator }),
        Action::RemoveRecord { user } => user == target,
        Action::LoadRecords { user } => user == target,
        Action::FetchMember { guild, user } => guild == cfg.guild_id && user == target,
        Action::ResolveUser { user } => user == target,
        Action::DirectMessage { user, notice } => user == target && notice_about(notice, target),
        Action::Send { channel: c, notice, .. } => c == channel && notice_about(notice, target),
        Action::Log(_) => true,
        Action::BanMember { guild, user, .. } => guild == cfg.guild_id && user == target,
        Action::UnbanMember { guild, user } => guild == cfg.guild_id && user == target,
        Action::AddRole { guild, user, role } => guild == cfg.guild_id && user == target && role
            == cfg.pit_role,
        Action::RemoveRole { guild, user, role } => guild == cfg.guild_id && user == target && role
            == cfg.pit_role,
        Action::Finish(_) => true,
        Action::Abort(_) => true,
    }
}

/// How many more outcomes a run can take at most before it finishes.
pub open spec fn stage_rank(s: Stage) -> nat {
    match s {
        Stage::Ban(b) => match b {
            BanStage::Inserting => 7,
            BanStage::FetchingMember => 6,
            BanStage::Resolving => 5,
            BanStage::Messaging => 4,
            BanStage::Banning => 3,
            BanStage::ReportingFailure => 2,
            BanStage::Undoing => 1,
            BanStage::Replying => 1,
        },
        Stage::Unban(u) => match u {
            UnbanStage::Removing => 4,
            UnbanStage::Unbanning => 3,
            UnbanStage::ReportingFailure => 2,
            UnbanStage::Undoing => 1,
            UnbanStage::Replying => 1,
        },
        Stage::ForceUnban(f) => match f {
            ForceUnbanStage::Removing => 2,
            ForceUnbanStage::Replying => 1,
        },
        Stage::Pit(p) => match p {
            PitStage::Inserting => 6,
            PitStage::FetchingMember => 5,
            PitStage::ChangingRole => 4,
            PitStage::ReportingSuccess => 3,
            PitStage::Resolving => 2,
            PitStage::Messaging => 1,
            PitStage::ReportingFailure => 2,
            PitStage::Undoing => 1,
            PitStage::Replying => 1,
        },
        Stage::Unpit(p) => match p {
            UnpitStage::Removing => 6,
            UnpitStage::FetchingMember => 5,
            UnpitStage::ChangingRole => 4,
            UnpitStage::ReportingSuccess => 3,
            UnpitStage::Resolving => 2,
            UnpitStage::Messaging => 1,
            UnpitStage::ReportingFailure => 2,
            UnpitStage::Undoing => 1,
            UnpitStage::Replying => 1,
        },
        Stage::Finished(_) => 0,
    }
}

/// One step keeps the run's user, moderator and channel, asks only for work
/// on them, comes closer to the end, and says `Finish` exactly when the run
/// is over.
proof fn lemma_step(cfg: DiscordConfig, run: CommandRun, ev: Outcome)
    ensures
        ({
            let (next, a) = command_next(cfg, run, ev);
            &&& next.target == run.target
            &&& next.moderator == run.moderator
            &&& next.channel == run.channel
            &&& concerns_only(a, cfg, run.target, run.moderator, run.channel)
            &&& run.stage is Finished ==> next == run
            &&& !(run.stage is Finished) ==> stage_rank(next.stage) < stage_rank(run.stage)
            &&& (next.stage is Finished <==> a is Finish)
            &&& next.stage matches Stage::Finished(r) ==> a == Action::Finish(r)
        }),
{
}

/// The start of a command asks only for work on its user, and is unfinished.
proof fn lemma_start(cmd: Command, cfg: DiscordConfig, target: u64, moderator: u64, channel: u64)
    ensures
        ({
            let (run, a) = command_start(cmd, target, moderator, channel);
            &&& run.target == target && run.moderator == moderator && run.channel == channel
            &&& concerns_only(a, cfg, target, moderator, channel)
            &&& !(run.stage is Finished)
            &&& !(a is Finish)
            &&& stage_rank(run.stage) <= 7
        }),
{
}

/// The run after `i` outcomes keeps the command's user, moderator and
/// channel, and has finished, or has at most `7 - i` outcomes to go.
proof fn lemma_state(
    cfg: DiscordConfig,
    cmd: Command,
    target: u64,
    moderator: u64,
    channel: u64,
    events: Seq<Outcome>,
    i: nat,
)
    requires
        i <= events.len(),
    ensures
        ({
            let (run, a) = command_state(cfg, cmd, target, moderator, channel, events, i);
            &&& run.target == target && run.moderator == moderator && run.channel == channel
            &&& concerns_only(a, cfg, target, moderator, channel)
            &&& run.stage is Finished || stage_rank(run.stage) + i <= 7
            &&& (run.stage is Finished <==> a is Finish)
        }),
    decreases i,
{
    if i == 0 {
        lemma_start(cmd, cfg, target, moderator, channel);
    } else {
        lemma_state(cfg, cmd, target, moderator, channel, events, (i - 1) as nat);
        let prev = command_state(cfg, cmd, target, moderator, channel, events, (i - 1) as nat).0;
        lemma_step(cfg, prev, events[i - 1]);
    }
}

/// Law: a command touches no one but the user it names. Every watchlist row
/// it writes is for that user and signed by the issuing moderator; every
/// Discord call is on that user, in the watched guild, with the pit role;
/// every message goes to the issuing channel or to that user, and speaks of
/// no other user.
pub proof fn lemma_command_concerns_only_target(
    cfg: DiscordConfig,
    cmd: Command,
    target: u64,
    moderator: u64,
    channel: u64,
    events: Seq<Outcome>,
    i: nat,
)
    requires
        i <= events.len(),
    ensures
        concerns_only(
            command_state(cfg, cmd, target, moderator, channel, events, i).1,
            cfg,
            target,
            moderator,
            channel,
        ),
{
    lemma_state(cfg, cmd, target, moderator, channel, events, i);
}

/// Law: every command finishes within seven outside actions, whatever they
/// come back with: from the seventh outcome on, the run is finished and asks
/// only to finish, always with the same result.
pub proof fn lemma_command_terminates(
    cfg: DiscordConfig,
    cmd: Command,
    target: u64,
    moderator: u64,
    channel: u64,
    events: Seq<Outcome>,
    i: nat,
)
    requires
        7 <= i <= events.len(),
    ensures
        command_state(cfg, cmd, target, moderator, channel, events, i).0.stage is Finished,
        command_state(cfg, cmd, target, moderator, channel, events, i).1 is Finish,
        command_state(cfg, cmd, target, moderator, channel, events, i).0 == command_state(
            cfg,
            cmd,
            target,
            moderator,
            channel,
            events,
            7,
        ).0,
    decreases i,
{
    lemma_state(cfg, cmd, target, moderator, channel, events, i);
    if i > 7 {
        lemma_command_terminates(cfg, cmd, target, moderator, channel, events, (i - 1) as nat);
        let prev = command_state(cfg, cmd, target, moderator, channel, events, (i - 1) as nat).0;
        lemma_step(cfg, prev, events[i - 1]);
    }
}

/// The stage a command is in right after it asked for an action, for the
/// actions that the laws below speak of.
proof fn lemma_stage_after(cfg: DiscordConfig, run: CommandRun, ev: Outcome)
    ensures
        ({
            let (next, a) = command_next(cfg, run, ev);
            &&& a is BanMember ==> run.stage == Stage::Ban(BanStage::Messaging) && ev is Ok
                && next.stage == Stage::Ban(BanStage::Banning)
            &&& next.stage == Stage::Ban(BanStage::Messaging) ==> a == (Action::DirectMessage {
                user: run.target,
                notice: Notice::Configured { which: Configured::Ban },
            })
            &&& a is UnbanMember ==> next.stage == Stage::Unban(UnbanStage::Unbanning)
            &&& a is AddRole ==> next.stage == Stage::Pit(PitStage::ChangingRole)
            &&& a is RemoveRole ==> next.stage == Stage::Unpit(UnpitStage::ChangingRole)
        }),
{
}

/// Law: the bot never bans a user it has not first messaged. Every ban that a
/// `ban` command asks for comes right after a direct message of the
/// configured ban text to that user, and only once that message was sent.
pub proof fn lemma_message_before_ban(
    cfg: DiscordConfig,
    cmd: Command,
    target: u64,
    moderator: u64,
    channel: u64,
    events: Seq<Outcome>,
    i: nat,
)
    requires
        i <= events.len(),
        command_state(cfg, cmd, target, moderator, channel, events, i).1 is BanMember,
    ensures
        i >= 1,
        command_state(cfg, cmd, target, moderator, channel, events, (i - 1) as nat).1 == (
        Action::DirectMessage {
            user: target,
            notice: Notice::Configured { which: Configured::Ban },
        }),
        events[i - 1] is Ok,
{
    lemma_start(cmd, cfg, target, moderator, channel);
    let s = |k: nat| command_state(cfg, cmd, target, moderator, channel, events, k);
    if i >= 1 {
        lemma_state(cfg, cmd, target, moderator, channel, events, (i - 1) as nat);
        lemma_stage_after(cfg, s((i - 1) as nat).0, events[i - 1]);
        if i >= 2 {
            lemma_state(cfg, cmd, target, moderator, channel, events, (i - 2) as nat);
            lemma_stage_after(cfg, s((i - 2) as nat).0, events[i - 2]);
        }
    }
}

/// Law: what the bot does on Discord and fails at, it undoes in the
/// watchlist once it has reported the failure. A ban or pit role that fails
/// is followed, after the failure report went out, by removing the user's
/// row; a lifted ban or pit role that fails is followed by adding the row
/// again, signed by the same moderator.
pub proof fn lemma_failed_action_undone(
    cfg: DiscordConfig,
    cmd: Command,
    target: u64,
    moderator: u64,
    channel: u64,
    events: Seq<Outcome>,
    i: nat,
)
    requires
        i + 2 <= events.len(),
        events[i as int] is Err,
        events[i + 1 as int] is Ok,
    ensures
        ({
            let a = command_state(cfg, cmd, target, moderator, channel, events, i).1;
            let undo = command_state(cfg, cmd, target, moderator, channel, events, i + 2).1;
            &&& (a is BanMember || a is AddRole) ==> undo == Action::RemoveRecord { user: target }
            &&& a is UnbanMember ==> undo == Action::InsertBan(
                NewUserBan { id: target, banned: true, moderator },
            )
            &&& a is RemoveRole ==> undo == Action::InsertPit(
                NewUserPit { id: target, pitted: true, moderator },
            )
        }),
{
    lemma_start(cmd, cfg, target, moderator, channel);
    lemma_state(cfg, cmd, target, moderator, channel, events, i);
    lemma_state(cfg, cmd, target, moderator, channel, events, i + 1);
    if i >= 1 {
        lemma_state(cfg, cmd, target, moderator, channel, events, (i - 1) as nat);
        lemma_stage_after(
            cfg,
            command_state(cfg, cmd, target, moderator, channel, events, (i - 1) as nat).0,
            events[i - 1],
        );
    }
    assert(command_state(cfg, cmd, target, moderator, channel, events, i + 1)
        == command_next(
        cfg,
        command_state(cfg, cmd, target, moderator, channel, events, i).0,
        events[i as int],
    ));
    assert(command_state(cfg, cmd, target, moderator, channel, events, i + 2)
        == command_next(
        cfg,
        command_state(cfg, cmd, target, moderator, channel, events, i + 1).0,
        events[i + 1 as int],
    ));
}

/// Whether an outcome is a failure whose display text is `m`.
pub open spec fn fails_with(ev: Outcome, m: String) -> bool {
    ev matches Err(f) && f.message == m
}

/// The messages after which a command has nothing left to do.
pub open spec fn closing_notice(n: Notice) -> bool {
    match n {
        Notice::AlreadyBanned { .. } => true,
        Notice::AlreadyPitted { .. } => true,
        Notice::BanWatchlisted { .. } => true,
        Notice::PitWatchlisted { .. } => true,
        Notice::PitUnwatched { .. } => true,
        _ => false,
    }
}

/// Where a run must have been for a step to ask for a watchlist write, and
/// which Discord action leads into the stages that report a failure.
proof fn lemma_step_origins(cfg: DiscordConfig, run: CommandRun, ev: Outcome)
    ensures
        ({
            let (next, a) = command_next(cfg, run, ev);
            &&& a is RemoveRecord ==> ev is Ok && (run.stage == Stage::Ban(
                BanStage::ReportingFailure,
            ) || run.stage == Stage::Pit(PitStage::ReportingFailure))
            &&& a is InsertBan ==> ev is Ok && run.stage == Stage::Unban(
                UnbanStage::ReportingFailure,
            )
            &&& a is InsertPit ==> ev is Ok && run.stage == Stage::Unpit(
                UnpitStage::ReportingFailure,
            )
            &&& next.stage == Stage::Ban(BanStage::ReportingFailure) && run.stage != next.stage
                ==> ev is Err && run.stage == Stage::Ban(BanStage::Banning)
            &&& next.stage == Stage::Pit(PitStage::ReportingFailure) && run.stage != next.stage
                ==> ev is Err && run.stage == Stage::Pit(PitStage::ChangingRole)
            &&& next.stage == Stage::Unban(UnbanStage::ReportingFailure) && run.stage
                != next.stage ==> ev is Err && run.stage == Stage::Unban(UnbanStage::Unbanning)
            &&& next.stage == Stage::Unpit(UnpitStage::ReportingFailure) && run.stage
                != next.stage ==> ev is Err && run.stage == Stage::Unpit(UnpitStage::ChangingRole)
            &&& next.stage == Stage::Ban(BanStage::Banning) ==> a is BanMember
            &&& next.stage == Stage::Pit(PitStage::ChangingRole) ==> a is AddRole
            &&& next.stage == Stage::Unban(UnbanStage::Unbanning) ==> a is UnbanMember
            &&& next.stage == Stage::Unpit(UnpitStage::ChangingRole) ==> a is RemoveRole
            &&& (a matches Action::Send { notice, .. } && closing_notice(notice)) ==> (
            next.stage == Stage::Ban(BanStage::Replying) || next.stage == Stage::Pit(
                PitStage::Replying,
            ) || next.stage == Stage::Unpit(UnpitStage::Replying))
            &&& (run.stage == Stage::Ban(BanStage::Replying) || run.stage == Stage::Pit(
                PitStage::Replying,
            ) || run.stage == Stage::Unpit(UnpitStage::Replying)) ==> a is Finish
            &&& next.stage != Stage::ForceUnban(ForceUnbanStage::Removing)
            &&& (a matches Action::Send { notice, .. } && notice is Banned) ==> ev is Ok
                && run.stage == Stage::Ban(BanStage::Banning)
            &&& (a matches Action::Send { notice, .. } && notice is Pitted) ==> ev is Ok
                && run.stage == Stage::Pit(PitStage::ChangingRole)
            &&& (a matches Action::Send { notice, .. } && notice is Unpitted) ==> ev is Ok
                && run.stage == Stage::Unpit(UnpitStage::ChangingRole)
            &&& (a matches Action::Send { notice, .. } && notice is Pardoned) ==> ev is Ok && (
            run.stage == Stage::Unban(UnbanStage::Unbanning) || run.stage == Stage::ForceUnban(
                ForceUnbanStage::Removing,
            ))
            &&& a matches Action::Finish(Err(m)) ==> (fails_with(ev, m) || run.stage
                == Stage::Finished(Err(m)))
        }),
{
}

/// The first stage of a command is none of the stages that the laws below
/// trace back, and its first action writes the watchlist only as the
/// command says.
proof fn lemma_start_stage(cmd: Command, target: u64, moderator: u64, channel: u64)
    ensures
        ({
            let (run, a) = command_start(cmd, target, moderator, channel);
            &&& run.stage != Stage::Ban(BanStage::ReportingFailure)
            &&& run.stage != Stage::Pit(PitStage::ReportingFailure)
            &&& run.stage != Stage::Unban(UnbanStage::ReportingFailure)
            &&& run.stage != Stage::Unpit(UnpitStage::ReportingFailure)
            &&& run.stage != Stage::Ban(BanStage::Banning)
            &&& run.stage != Stage::Pit(PitStage::ChangingRole)
            &&& run.stage != Stage::Unban(UnbanStage::Unbanning)
            &&& run.stage != Stage::Unpit(UnpitStage::ChangingRole)
            &&& run.stage != Stage::Ban(BanStage::Replying)
            &&& run.stage != Stage::Pit(PitStage::Replying)
            &&& run.stage != Stage::Unpit(UnpitStage::Replying)
            &&& !(a is Send)
            &&& a is RemoveRecord <==> (cmd == Command::Unban || cmd == Command::ForceUnban || cmd
                == Command::Unpit)
            &&& a is InsertBan <==> cmd == Command::Ban
            &&& a is InsertPit <==> cmd == Command::Pit
        }),
{
}

/// The run after `i` outcomes is the step of the run after `i - 1`.
proof fn lemma_state_unfold(
    cfg: DiscordConfig,
    cmd: Command,
    target: u64,
    moderator: u64,
    channel: u64,
    events: Seq<Outcome>,
    i: nat,
)
    requires
        i >= 1,
    ensures
        command_state(cfg, cmd, target, moderator, channel, events, i) == command_next(
            cfg,
            command_state(cfg, cmd, target, moderator, channel, events, (i - 1) as nat).0,
            events[i - 1],
        ),
{
}

/// Law: the watchlist is written only as each command says, and otherwise
/// only to undo a Discord action that failed. A row is deleted only as the
/// first action of `unban`, `force_unban` and `unpit`, or two actions after
/// a ban or pit role that failed (with the failure reported in between). A
/// ban row is added only as the first action of `ban`, or two actions after
/// a lifted ban that failed; a pit row only as the first action of `pit`, or
/// two actions after a removal of the pit role that failed. So a user who is
/// already pitted or banned, or who is not in the guild, keeps their row
/// after `pit` or `ban`, and stays off the watchlist after `unpit`.
pub proof fn lemma_watchlist_writes(
    cfg: DiscordConfig,
    cmd: Command,
    target: u64,
    moderator: u64,
    channel: u64,
    events: Seq<Outcome>,
    i: nat,
)
    requires
        i <= events.len(),
    ensures
        ({
            let s = |k: nat| command_state(cfg, cmd, target, moderator, channel, events, k).1;
            &&& s(i) is RemoveRecord ==> (i == 0 && (cmd == Command::Unban || cmd
                == Command::ForceUnban || cmd == Command::Unpit)) || (i >= 2 && events[i - 2] is Err
                && events[i - 1] is Ok && s((i - 1) as nat) is Send && (s((i - 2) as nat) is BanMember
                || s((i - 2) as nat) is AddRole))
            &&& s(i) is InsertBan ==> (i == 0 && cmd == Command::Ban) || (i >= 2 && events[i
                - 2] is Err && events[i - 1] is Ok && s((i - 1) as nat) is Send && s(
                (i - 2) as nat,
            ) is UnbanMember)
            &&& s(i) is InsertPit ==> (i == 0 && cmd == Command::Pit) || (i >= 2 && events[i
                - 2] is Err && events[i - 1] is Ok && s((i - 1) as nat) is Send && s(
                (i - 2) as nat,
            ) is RemoveRole)
        }),
{
    let st = |k: nat| command_state(cfg, cmd, target, moderator, channel, events, k);
    lemma_start_stage(cmd, target, moderator, channel);
    if i >= 1 {
        lemma_state_unfold(cfg, cmd, target, moderator, channel, events, i);
        lemma_step_origins(cfg, st((i - 1) as nat).0, events[i - 1]);
        if i >= 2 {
            lemma_state_unfold(cfg, cmd, target, moderator, channel, events, (i - 1) as nat);
            lemma_step_origins(cfg, st((i - 2) as nat).0, events[i - 2]);
            if i >= 3 {
                lemma_state_unfold(cfg, cmd, target, moderator, channel, events, (i - 2) as nat);
                lemma_step_origins(cfg, st((i - 3) as nat).0, events[i - 3]);
            }
        }
    }
}

/// Law: telling the moderator that the user is already banned or pitted,
/// is on the watchlist, or has left it, is the last thing a command does:
/// the action after that message is to finish.
pub proof fn lemma_closing_reply_ends_run(
    cfg: DiscordConfig,
    cmd: Command,
    target: u64,
    moderator: u64,
    channel: u64,
    events: Seq<Outcome>,
    i: nat,
)
    requires
        i < events.len(),
        command_state(cfg, cmd, target, moderator, channel, events, i).1 matches Action::Send {
            notice,
            ..
        } && closing_notice(notice),
    ensures
        command_state(cfg, cmd, target, moderator, channel, events, i + 1).1 is Finish,
{
    let st = |k: nat| command_state(cfg, cmd, target, moderator, channel, events, k);
    lemma_start_stage(cmd, target, moderator, channel);
    lemma_state_unfold(cfg, cmd, target, moderator, channel, events, i + 1);
    lemma_step_origins(cfg, st(i).0, events[i as int]);
    if i >= 1 {
        lemma_state_unfold(cfg, cmd, target, moderator, channel, events, i);
        lemma_step_origins(cfg, st((i - 1) as nat).0, events[i - 1]);
    }
}

/// Law: the bot reports a success only after the Discord action succeeded.
/// "has been banned" comes right after a ban that went through, "has been
/// pitted" after the pit role was given, "has been un-pitted" after it was
/// taken, and "has been pardoned" after the ban was lifted (or, for
/// `force_unban`, the row removed).
pub proof fn lemma_success_reported_truthfully(
    cfg: DiscordConfig,
    cmd: Command,
    target: u64,
    moderator: u64,
    channel: u64,
    events: Seq<Outcome>,
    i: nat,
)
    requires
        i <= events.len(),
    ensures
        ({
            let s = |k: nat| command_state(cfg, cmd, target, moderator, channel, events, k).1;
            &&& (s(i) matches Action::Send { notice, .. } && notice is Banned) ==> i >= 1 && events[i
                - 1] is Ok && s((i - 1) as nat) is BanMember
            &&& (s(i) matches Action::Send { notice, .. } && notice is Pitted) ==> i >= 1 && events[i
                - 1] is Ok && s((i - 1) as nat) is AddRole
            &&& (s(i) matches Action::Send { notice, .. } && notice is Unpitted) ==> i >= 1
                && events[i - 1] is Ok && s((i - 1) as nat) is RemoveRole
            &&& (s(i) matches Action::Send { notice, .. } && notice is Pardoned) ==> i >= 1
                && events[i - 1] is Ok && (s((i - 1) as nat) is UnbanMember || s(
                (i - 1) as nat,
            ) is RemoveRecord)
        }),
{
    let st = |k: nat| command_state(cfg, cmd, target, moderator, channel, events, k);
    lemma_start_stage(cmd, target, moderator, channel);
    if i >= 1 {
        lemma_state_unfold(cfg, cmd, target, moderator, channel, events, i);
        lemma_step_origins(cfg, st((i - 1) as nat).0, events[i - 1]);
        if i >= 2 {
            lemma_state_unfold(cfg, cmd, target, moderator, channel, events, (i - 1) as nat);
            lemma_step_origins(cfg, st((i - 2) as nat).0, events[i - 2]);
        }
    }
}

/// Law: a command fails only with the display text of an outside action
/// that failed before.
pub proof fn lemma_command_error_comes_from_a_failure(
    cfg: DiscordConfig,
    cmd: Command,
    target: u64,
    moderator: u64,
    channel: u64,
    events: Seq<Outcome>,
    i: nat,
    m: String,
)
    requires
        i <= events.len(),
        command_state(cfg, cmd, target, moderator, channel, events, i).1 == Action::Finish(Err(m)),
    ensures
        exists|j: int| 0 <= j < i && #[trigger] fails_with(events[j], m),
    decreases i,
{
    let st = |k: nat| command_state(cfg, cmd, target, moderator, channel, events, k);
    lemma_start(cmd, cfg, target, moderator, channel);
    if i >= 1 {
        lemma_state_unfold(cfg, cmd, target, moderator, channel, events, i);
        lemma_step_origins(cfg, st((i - 1) as nat).0, events[i - 1]);
        if fails_with(events[i - 1], m) {
            assert(fails_with(events[i - 1], m));
        } else {
            assert(st((i - 1) as nat).0.stage == Stage::Finished(Err(m)));
            if i >= 2 {
                lemma_state_unfold(cfg, cmd, target, moderator, channel, events, (i - 1) as nat);
                lemma_step(cfg, st((i - 2) as nat).0, events[i - 2]);
            }
            lemma_command_error_comes_from_a_failure(
                cfg,
                cmd,
                target,
                moderator,
                channel,
                events,
                (i - 1) as nat,
                m,
            );
            let j = choose|j: int| 0 <= j < i - 1 && #[trigger] fails_with(events[j], m);
            assert(fails_with(events[j], m));
        }
    }
}

/// Law: a `ban` or `pit` whose row is already in the watchlist (the insert
/// hits the duplicate key) only tells the moderator the user is already
/// banned or pitted, then finishes (without error once that message is
/// sent) and without touching the watchlist or Discord again; another database error ends it at once,
/// without error and without a message.
pub proof fn lemma_refused_insert(
    cfg: DiscordConfig,
    cmd: Command,
    target: u64,
    moderator: u64,
    channel: u64,
    events: Seq<Outcome>,
)
    requires
        cmd == Command::Ban || cmd == Command::Pit,
        events.len() >= 2,
        events[0] matches Err(f) && (f.kind == FailureKind::UniqueViolation || f.kind
            == FailureKind::OtherDatabase),
    ensures
        ({
            let s = |k: nat| command_state(cfg, cmd, target, moderator, channel, events, k).1;
            &&& events[0]->Err_0.kind == FailureKind::UniqueViolation ==> s(1) == Action::Send {
                channel,
                notice: if cmd == Command::Ban {
                    Notice::AlreadyBanned { user: target }
                } else {
                    Notice::AlreadyPitted { user: target }
                },
                log: None,
            } && s(2) is Finish && (events[1] is Ok ==> s(2) == Action::Finish(Ok(())))
            &&& events[0]->Err_0.kind == FailureKind::OtherDatabase ==> s(1) == Action::Finish(
                Ok(()),
            ) && s(2) == Action::Finish(Ok(()))
        }),
{
    let st = |k: nat| command_state(cfg, cmd, target, moderator, channel, events, k);
    lemma_state_unfold(cfg, cmd, target, moderator, channel, events, 1);
    lemma_state_unfold(cfg, cmd, target, moderator, channel, events, 2);
    let unique = events[0]->Err_0.kind == FailureKind::UniqueViolation;
    if cmd == Command::Ban {
        assert(st(0).0.stage == Stage::Ban(BanStage::Inserting));
        if unique {
            assert(st(1).0.stage == Stage::Ban(BanStage::Replying));
        } else {
            assert(st(1).0.stage == Stage::Finished(Ok(())));
        }
    } else {
        assert(st(0).0.stage == Stage::Pit(PitStage::Inserting));
        if unique {
            assert(st(1).0.stage == Stage::Pit(PitStage::Replying));
        } else {
            assert(st(1).0.stage == Stage::Finished(Ok(())));
        }
    }
}

/// Law: when every outside action succeeds, `ban` records the ban, fetches
/// the member, messages them the configured ban text, bans them, tells the
/// moderator, and finishes without error.
pub proof fn lemma_ban_succeeds(
    cfg: DiscordConfig,
    target: u64,
    moderator: u64,
    channel: u64,
    events: Seq<Outcome>,
)
    requires
        events.len() >= 6,
        forall|i: int| 0 <= i < events.len() ==> #[trigger] events[i] is Ok,
    ensures
        ({
            let s = |i: nat| command_state(cfg, Command::Ban, target, moderator, channel, events, i).1;
            &&& s(0) == Action::InsertBan(NewUserBan { id: target, banned: true, moderator })
            &&& s(1) == Action::FetchMember { guild: cfg.guild_id, user: target }
            &&& s(2) == Action::ResolveUser { user: target }
            &&& s(3) == Action::DirectMessage {
                user: target,
                notice: Notice::Configured { which: Configured::Ban },
            }
            &&& s(4) == Action::BanMember { guild: cfg.guild_id, user: target, delete_message_days: 7 }
            &&& s(5) == Action::Send { channel, notice: Notice::Banned { user: target }, log: None }
            &&& s(6) == Action::Finish(Ok(()))
        }),
{
    let s = |i: nat| command_state(cfg, Command::Ban, target, moderator, channel, events, i);
    assert(events[0] is Ok && events[1] is Ok && events[2] is Ok);
    assert(events[3] is Ok && events[4] is Ok && events[5] is Ok);
    assert(s(1).0.stage == Stage::Ban(BanStage::FetchingMember));
    assert(s(2).0.stage == Stage::Ban(BanStage::Resolving));
    assert(s(3).0.stage == Stage::Ban(BanStage::Messaging));
    assert(s(4).0.stage == Stage::Ban(BanStage::Banning));
    assert(s(5).0.stage == Stage::Ban(BanStage::Replying));
    assert(s(6).0.stage == Stage::Finished(Ok(())));
}

/// Law: a user who is not in the guild stays on the watchlist. When the ban
/// or pit row is written but the member cannot be fetched, the moderator is
/// told the user is on the watchlist, and the run finishes without touching
/// the row again.
pub proof fn lemma_absent_user_watchlisted(
    cfg: DiscordConfig,
    cmd: Command,
    target: u64,
    moderator: u64,
    channel: u64,
    events: Seq<Outcome>,
)
    requires
        cmd == Command::Ban || cmd == Command::Pit,
        events.len() >= 3,
        events[0] is Ok,
        events[1] is Err,
    ensures
        ({
            let s = |i: nat| command_state(cfg, cmd, target, moderator, channel, events, i).1;
            &&& s(1) == Action::FetchMember { guild: cfg.guild_id, user: target }
            &&& s(2) == Action::Send {
                channel,
                notice: if cmd == Command::Ban {
                    Notice::BanWatchlisted { user: target }
                } else {
                    Notice::PitWatchlisted { user: target }
                },
                log: None,
            }
            &&& s(3) is Finish
        }),
{
    let s = |i: nat| command_state(cfg, cmd, target, moderator, channel, events, i);
    assert(s(0).0 == command_start(cmd, target, moderator, channel).0);
    if cmd == Command::Ban {
        assert(s(0).0.stage == Stage::Ban(BanStage::Inserting));
        assert(s(1).0.stage == Stage::Ban(BanStage::FetchingMember));
        assert(s(2).0.stage == Stage::Ban(BanStage::Replying));
    } else {
        assert(s(0).0.stage == Stage::Pit(PitStage::Inserting));
        assert(s(1).0.stage == Stage::Pit(PitStage::FetchingMember));
        assert(s(2).0.stage == Stage::Pit(PitStage::Replying));
    }
}

/// Law: when every outside action succeeds, `pit` records the pit, gives the
/// member the pit role, tells the moderator, messages the member the
/// configured pit text, and finishes without error.
pub proof fn lemma_pit_succeeds(
    cfg: DiscordConfig,
    target: u64,
    moderator: u64,
    channel: u64,
    events: Seq<Outcome>,
)
    requires
        events.len() >= 6,
        forall|i: int| 0 <= i < events.len() ==> #[trigger] events[i] is Ok,
    ensures
        ({
            let s = |i: nat| command_state(cfg, Command::Pit, target, moderator, channel, events, i).1;
            &&& s(0) == Action::InsertPit(NewUserPit { id: target, pitted: true, moderator })
            &&& s(1) == Action::FetchMember { guild: cfg.guild_id, user: target }
            &&& s(2) == Action::AddRole { guild: cfg.guild_id, user: target, role: cfg.pit_role }
            &&& s(3) == Action::Send { channel, notice: Notice::Pitted { user: target }, log: None }
            &&& s(4) == Action::ResolveUser { user: target }
            &&& s(5) == Action::DirectMessage {
                user: target,
                notice: Notice::Configured { which: Configured::Pit },
            }
            &&& s(6) == Action::Finish(Ok(()))
        }),
{
    let s = |i: nat| command_state(cfg, Command::Pit, target, moderator, channel, events, i);
    assert(events[0] is Ok && events[1] is Ok && events[2] is Ok);
    assert(events[3] is Ok && events[4] is Ok && events[5] is Ok);
    assert(s(1).0.stage == Stage::Pit(PitStage::FetchingMember));
    assert(s(2).0.stage == Stage::Pit(PitStage::ChangingRole));
    assert(s(3).0.stage == Stage::Pit(PitStage::ReportingSuccess));
    assert(s(4).0.stage == Stage::Pit(PitStage::Resolving));
    assert(s(5).0.stage == Stage::Pit(PitStage::Messaging));
}

/// Law: when every outside action succeeds, `unban` removes the row, lifts
/// the ban, tells the moderator, and finishes without error; `force_unban`
/// removes the row and tells the moderator; `unpit` removes the row, takes
/// the pit role, tells the moderator, and messages the member the configured
/// release text.
pub proof fn lemma_release_succeeds(
    cfg: DiscordConfig,
    target: u64,
    moderator: u64,
    channel: u64,
    events: Seq<Outcome>,
)
    requires
        events.len() >= 6,
        forall|i: int| 0 <= i < events.len() ==> #[trigger] events[i] is Ok,
    ensures
        ({
            let u = |i: nat| command_state(cfg, Command::Unban, target, moderator, channel, events, i).1;
            &&& u(0) == Action::RemoveRecord { user: target }
            &&& u(1) == Action::UnbanMember { guild: cfg.guild_id, user: target }
            &&& u(2) == Action::Send { channel, notice: Notice::Pardoned { user: target }, log: None }
            &&& u(3) == Action::Finish(Ok(()))
        }),
        ({
            let f = |i: nat|
                command_state(cfg, Command::ForceUnban, target, moderator, channel, events, i).1;
            &&& f(0) == Action::RemoveRecord { user: target }
            &&& f(1) == Action::Send { channel, notice: Notice::Pardoned { user: target }, log: None }
            &&& f(2) == Action::Finish(Ok(()))
        }),
        ({
            let p = |i: nat| command_state(cfg, Command::Unpit, target, moderator, channel, events, i).1;
            &&& p(0) == Action::RemoveRecord { user: target }
            &&& p(1) == Action::FetchMember { guild: cfg.guild_id, user: target }
            &&& p(2) == Action::RemoveRole { guild: cfg.guild_id, user: target, role: cfg.pit_role }
            &&& p(3) == Action::Send { channel, notice: Notice::Unpitted { user: target }, log: None }
            &&& p(4) == Action::ResolveUser { user: target }
            &&& p(5) == Action::DirectMessage {
                user: target,
                notice: Notice::Configured { which: Configured::Unpit },
            }
            &&& p(6) == Action::Finish(Ok(()))
        }),
{
    let u = |i: nat| command_state(cfg, Command::Unban, target, moderator, channel, events, i);
    let f = |i: nat| command_state(cfg, Command::ForceUnban, target, moderator, channel, events, i);
    let p = |i: nat| command_state(cfg, Command::Unpit, target, moderator, channel, events, i);
    assert(events[0] is Ok && events[1] is Ok && events[2] is Ok);
    assert(events[3] is Ok && events[4] is Ok && events[5] is Ok);
    assert(u(1).0.stage == Stage::Unban(UnbanStage::Unbanning));
    assert(u(2).0.stage == Stage::Unban(UnbanStage::Replying));
    assert(f(1).0.stage == Stage::ForceUnban(ForceUnbanStage::Replying));
    assert(p(1).0.stage == Stage::Unpit(UnpitStage::FetchingMember));
    assert(p(2).0.stage == Stage::Unpit(UnpitStage::ChangingRole));
    assert(p(3).0.stage == Stage::Unpit(UnpitStage::ReportingSuccess));
    assert(p(4).0.stage == Stage::Unpit(UnpitStage::Resolving));
    assert(p(5).0.stage == Stage::Unpit(UnpitStage::Messaging));
}

/// Whether an action of a join touches no one but the member who joined and
/// leaves the watchlist as it is: it reads only that member's rows, calls
/// Discord only on that member in the watched guild with the pit role, and
/// messages only that member or the report channel, about that member.
pub open spec fn join_concerns_only(a: Action, cfg: DiscordConfig, user: u64) -> bool {
    match a {
        Action::InsertBan(_) => false,
        Action::InsertPit(_) => false,
        Action::RemoveRecord { .. } => false,
        Action::LoadRecords { user: u } => u == user,
        Action::FetchMember { guild, user: u } => guild == cfg.guild_id && u == user,
        Action::ResolveUser { user: u } => u == user,
        Action::DirectMessage { user: u, notice } => u == user && notice_about(notice, user),
        Action::Send { channel, notice, .. } => channel == cfg.report_channel && notice_about(
            notice,
            user,
        ),
        Action::Log(_) => true,
        Action::BanMember { guild, user: u, .. } => guild == cfg.guild_id && u == user,
        Action::UnbanMember { .. } => false,
        Action::AddRole { guild, user: u, role } => guild == cfg.guild_id && u == user && role
            == cfg.pit_role,
        Action::RemoveRole { .. } => false,
        Action::Finish(r) => r is Ok,
        Action::Abort(_) => true,
    }
}

/// How many more outcomes a join can take at most before it is done.
pub open spec fn join_rank(s: JoinStage) -> nat {
    match s {
        JoinStage::Announcing => 8,
        JoinStage::Loading => 7,
        JoinStage::Found { .. } => 6,
        JoinStage::FetchingForBan => 5,
        JoinStage::ResolvingForBan => 4,
        JoinStage::WarningBanned => 3,
        JoinStage::Banning => 2,
        JoinStage::FetchingForPit => 5,
        JoinStage::Pitting => 4,
        JoinStage::ResolvingForPit => 3,
        JoinStage::WarningPitted => 2,
        JoinStage::Closing => 1,
        JoinStage::Done => 0,
    }
}

proof fn lemma_join_step(cfg: DiscordConfig, run: JoinRun, ev: JoinOutcome)
    ensures
        ({
            let (next, a) = join_next(cfg, run, ev);
            &&& next.user == run.user
            &&& join_concerns_only(a, cfg, run.user)
            &&& run.stage is Done ==> next == run && a == Action::Finish(Ok(()))
            &&& !(run.stage is Done) ==> join_rank(next.stage) < join_rank(run.stage)
        }),
{
}

proof fn lemma_join_state(
    cfg: DiscordConfig,
    guild: u64,
    user: u64,
    events: Seq<JoinOutcome>,
    i: nat,
)
    requires
        i <= events.len(),
    ensures
        ({
            let (run, a) = join_state(cfg, guild, user, events, i);
            &&& run.user == user
            &&& join_concerns_only(a, cfg, user)
            &&& run.stage is Done || join_rank(run.stage) + i <= 8
        }),
    decreases i,
{
    if i > 0 {
        lemma_join_state(cfg, guild, user, events, (i - 1) as nat);
        lemma_join_step(cfg, join_state(cfg, guild, user, events, (i - 1) as nat).0, events[i - 1]);
    }
}

/// Law: a join reads the watchlist but never writes it, and touches no one
/// but the member who joined: Discord calls only on that member in the
/// watched guild with the pit role, messages only to that member or to the
/// report channel, and about that member.
pub proof fn lemma_join_concerns_only_member(
    cfg: DiscordConfig,
    guild: u64,
    user: u64,
    events: Seq<JoinOutcome>,
    i: nat,
)
    requires
        i <= events.len(),
    ensures
        join_concerns_only(join_state(cfg, guild, user, events, i).1, cfg, user),
{
    lemma_join_state(cfg, guild, user, events, i);
}

/// Law: a join is over within eight outside actions, whatever they come back
/// with: from the eighth outcome on, it asks only to finish.
pub proof fn lemma_join_terminates(
    cfg: DiscordConfig,
    guild: u64,
    user: u64,
    events: Seq<JoinOutcome>,
    i: nat,
)
    requires
        8 <= i <= events.len(),
    ensures
        join_state(cfg, guild, user, events, i).0.stage is Done,
        i > 8 ==> join_state(cfg, guild, user, events, i).1 == Action::Finish(Ok(())),
    decreases i,
{
    lemma_join_state(cfg, guild, user, events, i);
    if i > 8 {
        lemma_join_terminates(cfg, guild, user, events, (i - 1) as nat);
        lemma_join_step(cfg, join_state(cfg, guild, user, events, (i - 1) as nat).0, events[i - 1]);
    }
}

/// Law: a member who joins any guild but the watched one is left alone: the
/// join asks for nothing but to finish.
pub proof fn lemma_join_other_guild(
    cfg: DiscordConfig,
    guild: u64,
    user: u64,
    events: Seq<JoinOutcome>,
    i: nat,
)
    requires
        guild != cfg.guild_id,
        i <= events.len(),
    ensures
        join_state(cfg, guild, user, events, i).0.stage is Done,
        join_state(cfg, guild, user, events, i).1 == Action::Finish(Ok(())),
    decreases i,
{
    if i > 0 {
        lemma_join_other_guild(cfg, guild, user, events, (i - 1) as nat);
    }
}

/// Whether the first watchlist row that the join read (the outcome of its
/// second action) marks the member as banned.
pub open spec fn first_row_banned(events: Seq<JoinOutcome>) -> bool {
    &&& events.len() > 1
    &&& events[1] matches Ok(rows) && rows@.len() > 0 && rows@[0].banned
}

/// Whether the first watchlist row that the join read marks the member as
/// pitted and not banned.
pub open spec fn first_row_pitted_only(events: Seq<JoinOutcome>) -> bool {
    &&& events.len() > 1
    &&& events[1] matches Ok(rows) && rows@.len() > 0 && !rows@[0].banned && rows@[0].pitted
}

/// Whether the join read at least one row, and the first marks the member
/// as `banned` and `pitted`.
pub open spec fn first_row_is(events: Seq<JoinOutcome>, banned: bool, pitted: bool) -> bool {
    &&& events.len() > 1
    &&& events[1] matches Ok(rows) && rows@.len() > 0 && rows@[0].banned == banned
        && rows@[0].pitted == pitted
}

/// What the stage of a join says about the rows it read.
proof fn lemma_join_stage_facts(
    cfg: DiscordConfig,
    user: u64,
    events: Seq<JoinOutcome>,
    i: nat,
)
    requires
        i <= events.len(),
    ensures
        ({
            let st = join_state(cfg, cfg.guild_id, user, events, i).0.stage;
            &&& st == JoinStage::Announcing ==> i == 0
            &&& st == JoinStage::Loading ==> i == 1
            &&& st matches JoinStage::Found { banned, pitted } ==> i == 2 && first_row_is(
                events,
                banned,
                pitted,
            )
            &&& (st == JoinStage::FetchingForBan || st == JoinStage::ResolvingForBan || st
                == JoinStage::WarningBanned || st == JoinStage::Banning) ==> first_row_banned(
                events,
            )
            &&& (st == JoinStage::FetchingForPit || st == JoinStage::Pitting || st
                == JoinStage::ResolvingForPit || st == JoinStage::WarningPitted)
                ==> first_row_pitted_only(events)
        }),
    decreases i,
{
    if i >= 1 {
        lemma_join_stage_facts(cfg, user, events, (i - 1) as nat);
    }
}

/// Law: a join acts on a member only as their watchlist row says. It bans
/// them only if the first row it read marks them banned, and gives them the
/// pit role only if that row marks them pitted and not banned; a member
/// without a row, or with a row that marks neither, is not touched.
pub proof fn lemma_join_acts_only_on_watchlisted(
    cfg: DiscordConfig,
    guild: u64,
    user: u64,
    events: Seq<JoinOutcome>,
    i: nat,
)
    requires
        i <= events.len(),
    ensures
        join_state(cfg, guild, user, events, i).1 is BanMember ==> guild == cfg.guild_id
            && first_row_banned(events),
        join_state(cfg, guild, user, events, i).1 is AddRole ==> guild == cfg.guild_id
            && first_row_pitted_only(events),
        join_state(cfg, guild, user, events, i).1 is FetchMember ==> guild == cfg.guild_id && (
        first_row_banned(events) || first_row_pitted_only(events)),
{
    if guild != cfg.guild_id {
        lemma_join_other_guild(cfg, guild, user, events, i);
    } else if i >= 1 {
        lemma_join_stage_facts(cfg, user, events, (i - 1) as nat);
    }
}

/// Law: a banned user who joins the watched guild is banned again. The join
/// reads the user's rows, messages them the configured ban-evasion text, bans
/// them, and reports to the report channel whether the ban went through.
pub proof fn lemma_join_bans_banned(
    cfg: DiscordConfig,
    user: u64,
    rows: Vec<User>,
    events: Seq<JoinOutcome>,
)
    requires
        events.len() >= 7,
        rows@.len() > 0,
        rows@[0].banned,
        events[1] == Ok::<Vec<User>, Failure>(rows),
        events[0] is Ok && events[2] is Ok && events[3] is Ok && events[4] is Ok && events[5] is Ok,
    ensures
        ({
            let s = |i: nat| join_state(cfg, cfg.guild_id, user, events, i).1;
            &&& s(1) == Action::LoadRecords { user }
            &&& s(3) == Action::FetchMember { guild: cfg.guild_id, user }
            &&& s(5) == Action::DirectMessage {
                user,
                notice: Notice::Configured { which: Configured::BanEvade },
            }
            &&& s(6) == Action::BanMember { guild: cfg.guild_id, user, delete_message_days: 7 }
            &&& s(7) == match events[6] {
                Ok(_) => Action::Send {
                    channel: cfg.report_channel,
                    notice: Notice::EvaderBanned { user },
                    log: None,
                },
                Err(f) => Action::Send {
                    channel: cfg.report_channel,
                    notice: Notice::EvaderNotBanned { user, trace: f.trace },
                    log: None,
                },
            }
        }),
{
    let s = |i: nat| join_state(cfg, cfg.guild_id, user, events, i);
    assert(s(0).0.stage == JoinStage::Announcing);
    assert(s(1).0.stage == JoinStage::Loading);
    assert(s(2).0.stage == JoinStage::Found { banned: true, pitted: rows@[0].pitted });
    assert(s(3).0.stage == JoinStage::FetchingForBan);
    assert(s(4).0.stage == JoinStage::ResolvingForBan);
    assert(s(5).0.stage == JoinStage::WarningBanned);
    assert(s(6).0.stage == JoinStage::Banning);
}

/// Law: a pitted (and not banned) user who joins the watched guild is put
/// back in the pit: the join gives them the pit role, and if that works
/// messages them the configured pit-evasion text and reports it.
pub proof fn lemma_join_pits_pitted(
    cfg: DiscordConfig,
    user: u64,
    rows: Vec<User>,
    events: Seq<JoinOutcome>,
)
    requires
        events.len() >= 7,
        rows@.len() > 0,
        !rows@[0].banned,
        rows@[0].pitted,
        events[1] == Ok::<Vec<User>, Failure>(rows),
        events[0] is Ok && events[2] is Ok && events[3] is Ok && events[4] is Ok && events[5] is Ok,
    ensures
        ({
            let s = |i: nat| join_state(cfg, cfg.guild_id, user, events, i).1;
            &&& s(3) == Action::FetchMember { guild: cfg.guild_id, user }
            &&& s(4) == Action::AddRole { guild: cfg.guild_id, user, role: cfg.pit_role }
            &&& s(5) == Action::ResolveUser { user }
            &&& s(6) == Action::DirectMessage {
                user,
                notice: Notice::Configured { which: Configured::PitEvade },
            }
            &&& s(7) == Action::Send {
                channel: cfg.report_channel,
                notice: Notice::EvaderPitted { user },
                log: None,
            }
        }),
{
    let s = |i: nat| join_state(cfg, cfg.guild_id, user, events, i);
    assert(s(0).0.stage == JoinStage::Announcing);
    assert(s(1).0.stage == JoinStage::Loading);
    assert(s(2).0.stage == JoinStage::Found { banned: false, pitted: true });
    assert(s(3).0.stage == JoinStage::FetchingForPit);
    assert(s(4).0.stage == JoinStage::Pitting);
    assert(s(5).0.stage == JoinStage::ResolvingForPit);
    assert(s(6).0.stage == JoinStage::WarningPitted);
}

/// Law: a member without rows in the watchlist is left alone: the join logs
/// that no record was found and finishes.
pub proof fn lemma_join_unknown_left_alone(
    cfg: DiscordConfig,
    user: u64,
    events: Seq<JoinOutcome>,
    i: nat,
)
    requires
        events.len() >= 2,
        events[1] matches Ok(rows) && rows@.len() == 0,
        3 <= i <= events.len(),
    ensures
        join_state(cfg, cfg.guild_id, user, events, 2).1 == Action::Log(
            crate::replies::LogLine::NoRecords { user },
        ),
        join_state(cfg, cfg.guild_id, user, events, i).1 == Action::Finish(Ok(())),
    decreases i,
{
    let s = |k: nat| join_state(cfg, cfg.guild_id, user, events, k);
    assert(s(0).0.stage == JoinStage::Announcing);
    assert(s(1).0.stage == JoinStage::Loading);
    assert(s(2).0.stage == JoinStage::Closing);
    assert(s(3).0.stage == JoinStage::Done);
    if i > 3 {
        lemma_join_unknown_left_alone(cfg, user, events, (i - 1) as nat);
        lemma_join_step(cfg, s((i - 1) as nat).0, events[i - 1]);
    }
}

} // verus!
