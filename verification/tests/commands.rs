use pitboss::action::{Action, Failure, FailureKind};
use pitboss::commands::{begin, step, BanStage, Command, Stage};
use pitboss::models::{ban_record, pit_record, CommandSchema, DiscordConfig, Embed, NewUserBan, NewUserPit};
use pitboss::replies::{Configured, LogLine, Notice};

const GUILD: u64 = 100;
const PIT_ROLE: u64 = 300;
const TARGET: u64 = 42;
const MODERATOR: u64 = 7;
const CHANNEL: u64 = 55;

fn embed() -> Embed {
    Embed {
        title: "t".to_string(),
        subtitle: "s".to_string(),
        color: 1,
        attract: "a".to_string(),
        warning: "w".to_string(),
    }
}

fn config() -> DiscordConfig {
    DiscordConfig {
        guild_id: GUILD,
        admin_roles: vec![],
        admin_users: vec![MODERATOR],
        report_channel: 200,
        pit_role: PIT_ROLE,
        commands: CommandSchema { enable_pitboss: true, enable_banboss: true },
        token: "SECRET-REDACTED".to_string(),
        ban_evade_msg: embed(),
        ban_msg: embed(),
        pit_evade_msg: embed(),
        pit_msg: embed(),
        unpit_msg: embed(),
    }
}

/// A failure whose debug text is `trace` and whose display text is `trace`
/// in capitals, so that the two can be told apart.
fn fail(kind: FailureKind, trace: &str) -> Result<(), Failure> {
    Err(Failure { kind, trace: trace.to_string(), message: trace.to_uppercase() })
}

fn other(trace: &str) -> Result<(), Failure> {
    fail(FailureKind::Other, trace)
}

/// The actions of a command fed `outcomes` in turn.
fn run(cmd: Command, outcomes: Vec<Result<(), Failure>>) -> Vec<Action> {
    let cfg = config();
    let (mut r, a) = begin(cmd, TARGET, MODERATOR, CHANNEL);
    let mut actions = vec![a];
    for ev in outcomes {
        let (next, a) = step(&cfg, r, ev);
        r = next;
        actions.push(a);
    }
    actions
}

fn send(notice: Notice, log: Option<LogLine>) -> Action {
    Action::Send { channel: CHANNEL, notice, log }
}

#[test]
fn records_are_for_the_target_and_signed() {
    assert_eq!(ban_record(1, 2), NewUserBan { id: 1, banned: true, moderator: 2 });
    assert_eq!(pit_record(1, 2), NewUserPit { id: 1, pitted: true, moderator: 2 });
}

#[test]
fn ban_of_a_member_messages_then_bans() {
    assert_eq!(
        run(Command::Ban, vec![Ok(()); 6]),
        vec![
            Action::InsertBan(ban_record(TARGET, MODERATOR)),
            Action::FetchMember { guild: GUILD, user: TARGET },
            Action::ResolveUser { user: TARGET },
            Action::DirectMessage { user: TARGET, notice: Notice::Configured { which: Configured::Ban } },
            Action::BanMember { guild: GUILD, user: TARGET, delete_message_days: 7 },
            send(Notice::Banned { user: TARGET }, None),
            Action::Finish(Ok(())),
        ]
    );
}

#[test]
fn ban_of_an_absent_user_watchlists_them() {
    assert_eq!(
        run(Command::Ban, vec![Ok(()), other("NotFound"), Ok(())]),
        vec![
            Action::InsertBan(ban_record(TARGET, MODERATOR)),
            Action::FetchMember { guild: GUILD, user: TARGET },
            send(Notice::BanWatchlisted { user: TARGET }, None),
            Action::Finish(Ok(())),
        ]
    );
}

#[test]
fn ban_of_a_banned_user_says_so() {
    assert_eq!(
        run(Command::Ban, vec![fail(FailureKind::UniqueViolation, "dup"), Ok(())]),
        vec![
            Action::InsertBan(ban_record(TARGET, MODERATOR)),
            send(Notice::AlreadyBanned { user: TARGET }, None),
            Action::Finish(Ok(())),
        ]
    );
}

#[test]
fn other_database_error_ends_silently() {
    assert_eq!(
        run(Command::Ban, vec![fail(FailureKind::OtherDatabase, "db")]),
        vec![Action::InsertBan(ban_record(TARGET, MODERATOR)), Action::Finish(Ok(()))]
    );
    assert_eq!(
        run(Command::Pit, vec![fail(FailureKind::OtherDatabase, "db")]),
        vec![Action::InsertPit(pit_record(TARGET, MODERATOR)), Action::Finish(Ok(()))]
    );
}

#[test]
fn ban_that_cannot_be_recorded_is_reported_and_logged() {
    assert_eq!(
        run(Command::Ban, vec![other("conn"), Ok(())])[1],
        send(
            Notice::NotBanned { user: TARGET, trace: "conn".to_string() },
            Some(LogLine::AddBanError { trace: "conn".to_string() })
        )
    );
}

#[test]
fn failed_ban_is_reported_and_the_record_removed() {
    let actions = run(Command::Ban, vec![Ok(()), Ok(()), Ok(()), Ok(()), other("perm"), Ok(()), Ok(())]);
    assert_eq!(
        &actions[5..],
        [
            send(
                Notice::BanFailed { user: TARGET, trace: "perm".to_string() },
                Some(LogLine::AddBanError { trace: "perm".to_string() })
            ),
            Action::RemoveRecord { user: TARGET },
            Action::Finish(Ok(())),
        ]
    );
}

#[test]
fn failed_undo_fails_the_command() {
    let actions =
        run(Command::Ban, vec![Ok(()), Ok(()), Ok(()), Ok(()), other("perm"), Ok(()), other("db gone")]);
    assert_eq!(actions[7], Action::Finish(Err("DB GONE".to_string())));
}

#[test]
fn undelivered_message_stops_the_ban() {
    let actions = run(Command::Ban, vec![Ok(()), Ok(()), Ok(()), other("closed dms")]);
    assert_eq!(actions[4], Action::Finish(Err("CLOSED DMS".to_string())));
    assert!(!actions.iter().any(|a| matches!(a, Action::BanMember { .. })));
}

#[test]
fn unresolved_user_stops_the_ban() {
    let actions = run(Command::Ban, vec![Ok(()), Ok(()), other("unknown user")]);
    assert_eq!(actions[3], Action::Finish(Err("UNKNOWN USER".to_string())));
}

#[test]
fn unban_lifts_the_ban() {
    assert_eq!(
        run(Command::Unban, vec![Ok(()); 3]),
        vec![
            Action::RemoveRecord { user: TARGET },
            Action::UnbanMember { guild: GUILD, user: TARGET },
            send(Notice::Pardoned { user: TARGET }, None),
            Action::Finish(Ok(())),
        ]
    );
}

#[test]
fn failed_unban_records_the_ban_again() {
    assert_eq!(
        run(Command::Unban, vec![Ok(()), other("no ban"), Ok(()), Ok(())]),
        vec![
            Action::RemoveRecord { user: TARGET },
            Action::UnbanMember { guild: GUILD, user: TARGET },
            send(
                Notice::NotPardoned { user: TARGET, trace: "no ban".to_string() },
                Some(LogLine::RemoveBanError { trace: "no ban".to_string() })
            ),
            Action::InsertBan(ban_record(TARGET, MODERATOR)),
            Action::Finish(Ok(())),
        ]
    );
}

#[test]
fn unban_whose_record_cannot_be_removed_is_reported() {
    assert_eq!(
        run(Command::Unban, vec![other("db"), Ok(())]),
        vec![
            Action::RemoveRecord { user: TARGET },
            send(
                Notice::NotPardoned { user: TARGET, trace: "db".to_string() },
                Some(LogLine::RemoveBanError { trace: "db".to_string() })
            ),
            Action::Finish(Ok(())),
        ]
    );
}

#[test]
fn force_unban_only_removes_the_record() {
    assert_eq!(
        run(Command::ForceUnban, vec![Ok(()), Ok(())]),
        vec![
            Action::RemoveRecord { user: TARGET },
            send(Notice::Pardoned { user: TARGET }, None),
            Action::Finish(Ok(())),
        ]
    );
    assert_eq!(
        run(Command::ForceUnban, vec![other("db"), other("send")]),
        vec![
            Action::RemoveRecord { user: TARGET },
            send(
                Notice::NotPardoned { user: TARGET, trace: "db".to_string() },
                Some(LogLine::RemoveBanError { trace: "db".to_string() })
            ),
            Action::Finish(Err("SEND".to_string())),
        ]
    );
}

#[test]
fn pit_of_a_member_gives_the_role_then_messages() {
    assert_eq!(
        run(Command::Pit, vec![Ok(()); 6]),
        vec![
            Action::InsertPit(pit_record(TARGET, MODERATOR)),
            Action::FetchMember { guild: GUILD, user: TARGET },
            Action::AddRole { guild: GUILD, user: TARGET, role: PIT_ROLE },
            send(Notice::Pitted { user: TARGET }, None),
            Action::ResolveUser { user: TARGET },
            Action::DirectMessage { user: TARGET, notice: Notice::Configured { which: Configured::Pit } },
            Action::Finish(Ok(())),
        ]
    );
}

#[test]
fn pit_of_a_pitted_user_says_so() {
    assert_eq!(
        run(Command::Pit, vec![fail(FailureKind::UniqueViolation, "dup"), Ok(())])[1],
        send(Notice::AlreadyPitted { user: TARGET }, None)
    );
}

#[test]
fn pit_of_an_absent_user_watchlists_them() {
    assert_eq!(
        run(Command::Pit, vec![Ok(()), other("gone"), Ok(())])[2],
        send(Notice::PitWatchlisted { user: TARGET }, None)
    );
}

#[test]
fn failed_pit_role_is_reported_and_the_record_removed() {
    assert_eq!(
        &run(Command::Pit, vec![Ok(()), Ok(()), other("perm"), Ok(()), Ok(())])[3..],
        [
            send(Notice::NotPitted { user: TARGET, trace: "perm".to_string() }, None),
            Action::RemoveRecord { user: TARGET },
            Action::Finish(Ok(())),
        ]
    );
}

#[test]
fn pit_that_cannot_be_recorded_is_reported_and_logged() {
    assert_eq!(
        run(Command::Pit, vec![other("conn")])[1],
        send(
            Notice::NotPitted { user: TARGET, trace: "conn".to_string() },
            Some(LogLine::AddPitError { trace: "conn".to_string() })
        )
    );
}

#[test]
fn unpit_takes_the_role_then_messages() {
    assert_eq!(
        run(Command::Unpit, vec![Ok(()); 6]),
        vec![
            Action::RemoveRecord { user: TARGET },
            Action::FetchMember { guild: GUILD, user: TARGET },
            Action::RemoveRole { guild: GUILD, user: TARGET, role: PIT_ROLE },
            send(Notice::Unpitted { user: TARGET }, None),
            Action::ResolveUser { user: TARGET },
            Action::DirectMessage { user: TARGET, notice: Notice::Configured { which: Configured::Unpit } },
            Action::Finish(Ok(())),
        ]
    );
}

#[test]
fn failed_unpit_records_the_pit_again() {
    assert_eq!(
        &run(Command::Unpit, vec![Ok(()), Ok(()), other("perm"), Ok(()), Ok(())])[3..],
        [
            send(Notice::PitRemovalFailed { trace: "perm".to_string() }, None),
            Action::InsertPit(pit_record(TARGET, MODERATOR)),
            Action::Finish(Ok(())),
        ]
    );
}

#[test]
fn unpit_of_an_absent_user_clears_the_watchlist() {
    assert_eq!(
        run(Command::Unpit, vec![Ok(()), other("gone"), Ok(())])[2],
        send(Notice::PitUnwatched { user: TARGET }, None)
    );
    assert_eq!(
        run(Command::Unpit, vec![other("db")])[1],
        send(
            Notice::PitRemovalFailed { trace: "db".to_string() },
            Some(LogLine::RemovePitError { trace: "db".to_string() })
        )
    );
}

#[test]
fn finished_runs_stay_finished() {
    let cfg = config();
    let (r, _) = begin(Command::Ban, TARGET, MODERATOR, CHANNEL);
    assert_eq!(r.stage, Stage::Ban(BanStage::Inserting));
    let (r, _) = step(&cfg, r, fail(FailureKind::OtherDatabase, "x"));
    assert_eq!(r.stage, Stage::Finished(Ok(())));
    let (r, a) = step(&cfg, r, other("late"));
    assert_eq!(a, Action::Finish(Ok(())));
    assert_eq!(r.stage, Stage::Finished(Ok(())));
    assert_eq!((r.target, r.moderator, r.channel), (TARGET, MODERATOR, CHANNEL));
}

#[test]
fn every_run_finishes_within_seven_outcomes() {
    for cmd in [Command::Ban, Command::Unban, Command::ForceUnban, Command::Pit, Command::Unpit] {
        for mask in 0u32..128 {
            let outcomes: Vec<_> =
                (0..7).map(|k| if mask & (1 << k) == 0 { Ok(()) } else { other("e") }).collect();
            let actions = run(cmd, outcomes);
            assert!(matches!(actions[7], Action::Finish(_)));
            for a in &actions {
                match a {
                    Action::Send { channel, .. } => assert_eq!(*channel, CHANNEL),
                    Action::RemoveRecord { user } | Action::ResolveUser { user } => {
                        assert_eq!(*user, TARGET)
                    }
                    _ => {}
                }
            }
        }
    }
}
