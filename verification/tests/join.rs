use pitboss::action::{Abort, Action, Failure, FailureKind};
use pitboss::join::{begin_join, join_step, JoinStage};
use pitboss::models::{CommandSchema, DiscordConfig, Embed, User};
use pitboss::replies::{Configured, LogLine, Notice};

const GUILD: u64 = 100;
const REPORT: u64 = 200;
const PIT_ROLE: u64 = 300;
const USER: u64 = 42;

fn embed() -> Embed {
    Embed {
        title: "t".to_string(),
        subtitle: "s".to_string(),
        color: 1,
        attract: "a".to_string(),
        warning: "w".to_string(),
    }
}

fn config() -> DiscordConfig {
    DiscordConfig {
        guild_id: GUILD,
        admin_roles: vec![],
        admin_users: vec![],
        report_channel: REPORT,
        pit_role: PIT_ROLE,
        commands: CommandSchema { enable_pitboss: true, enable_banboss: true },
        token: "SECRET-REDACTED".to_string(),
        ban_evade_msg: embed(),
        ban_msg: embed(),
        pit_evade_msg: embed(),
        pit_msg: embed(),
        unpit_msg: embed(),
    }
}

fn row(banned: bool, pitted: bool) -> User {
    User { id: USER, banned, pitted, moderator: 7 }
}

fn err(trace: &str) -> Result<Vec<User>, Failure> {
    Err(Failure { kind: FailureKind::Other, trace: trace.to_string(), message: trace.to_uppercase() })
}

fn join(guild: u64, outcomes: Vec<Result<Vec<User>, Failure>>) -> Vec<Action> {
    let cfg = config();
    let (mut r, a) = begin_join(&cfg, guild, USER);
    let mut actions = vec![a];
    for ev in outcomes {
        let (next, a) = join_step(&cfg, r, ev);
        r = next;
        actions.push(a);
    }
    actions
}

fn report(notice: Notice) -> Action {
    Action::Send { channel: REPORT, notice, log: None }
}

#[test]
fn joins_elsewhere_are_ignored() {
    assert_eq!(join(101, vec![Ok(vec![]), Ok(vec![])]), vec![Action::Finish(Ok(())), Action::Finish(Ok(())), Action::Finish(Ok(()))]);
}

#[test]
fn unknown_members_are_left_alone() {
    assert_eq!(
        join(GUILD, vec![Ok(vec![]), Ok(vec![]), Ok(vec![])]),
        vec![
            Action::Log(LogLine::MemberJoined { user: USER, guild: GUILD }),
            Action::LoadRecords { user: USER },
            Action::Log(LogLine::NoRecords { user: USER }),
            Action::Finish(Ok(())),
        ]
    );
}

#[test]
fn banned_members_are_banned_again() {
    let mut outcomes = vec![Ok(vec![]), Ok(vec![row(true, true)])];
    outcomes.extend(vec![Ok(vec![]); 7]);
    assert_eq!(
        join(GUILD, outcomes),
        vec![
            Action::Log(LogLine::MemberJoined { user: USER, guild: GUILD }),
            Action::LoadRecords { user: USER },
            Action::Log(LogLine::RecordFound { user: USER }),
            Action::FetchMember { guild: GUILD, user: USER },
            Action::ResolveUser { user: USER },
            Action::DirectMessage {
                user: USER,
                notice: Notice::Configured { which: Configured::BanEvade }
            },
            Action::BanMember { guild: GUILD, user: USER, delete_message_days: 7 },
            report(Notice::EvaderBanned { user: USER }),
            Action::Finish(Ok(())),
            Action::Finish(Ok(())),
        ]
    );
}

#[test]
fn failed_reban_is_reported() {
    let outcomes = vec![
        Ok(vec![]),
        Ok(vec![row(true, false)]),
        Ok(vec![]),
        Ok(vec![]),
        Ok(vec![]),
        err("dm closed"),
        err("perm"),
        Ok(vec![]),
    ];
    let actions = join(GUILD, outcomes);
    assert_eq!(actions[6], Action::BanMember { guild: GUILD, user: USER, delete_message_days: 7 });
    assert_eq!(actions[7], report(Notice::EvaderNotBanned { user: USER, trace: "perm".to_string() }));
    assert_eq!(actions[8], Action::Finish(Ok(())));
}

#[test]
fn pitted_members_are_pitted_again() {
    let mut outcomes = vec![Ok(vec![]), Ok(vec![row(false, true), row(true, true)])];
    outcomes.extend(vec![Ok(vec![]); 6]);
    assert_eq!(
        &join(GUILD, outcomes)[3..],
        [
            Action::FetchMember { guild: GUILD, user: USER },
            Action::AddRole { guild: GUILD, user: USER, role: PIT_ROLE },
            Action::ResolveUser { user: USER },
            Action::DirectMessage {
                user: USER,
                notice: Notice::Configured { which: Configured::PitEvade }
            },
            report(Notice::EvaderPitted { user: USER }),
            Action::Finish(Ok(())),
        ]
    );
}

#[test]
fn failed_repit_is_reported() {
    let outcomes =
        vec![Ok(vec![]), Ok(vec![row(false, true)]), Ok(vec![]), Ok(vec![]), err("perm"), Ok(vec![])];
    let actions = join(GUILD, outcomes);
    assert_eq!(actions[4], Action::AddRole { guild: GUILD, user: USER, role: PIT_ROLE });
    assert_eq!(actions[5], report(Notice::EvaderNotPitted { user: USER, trace: "perm".to_string() }));
    assert_eq!(actions[6], Action::Finish(Ok(())));
}

#[test]
fn rows_without_flags_do_nothing() {
    let actions = join(GUILD, vec![Ok(vec![]), Ok(vec![row(false, false)]), Ok(vec![])]);
    assert_eq!(actions[3], Action::Finish(Ok(())));
}

#[test]
fn unreadable_watchlist_or_member_aborts() {
    let actions = join(GUILD, vec![Ok(vec![]), err("db down")]);
    assert_eq!(actions[2], Action::Abort(Abort::LoadFailed { trace: "db down".to_string() }));
    let actions = join(GUILD, vec![Ok(vec![]), Ok(vec![row(true, false)]), Ok(vec![]), err("gone")]);
    assert_eq!(actions[4], Action::Abort(Abort::MemberUnavailable { trace: "gone".to_string() }));
    let actions = join(
        GUILD,
        vec![Ok(vec![]), Ok(vec![row(false, true)]), Ok(vec![]), Ok(vec![]), Ok(vec![]), err("no user")],
    );
    assert_eq!(actions[6], Action::Abort(Abort::UserUnresolved { trace: "no user".to_string() }));
}

#[test]
fn joins_are_done_within_eight_outcomes() {
    let cfg = config();
    for first in [vec![], vec![row(true, false)], vec![row(false, true)], vec![row(false, false)]] {
        for mask in 0u32..256 {
            let (mut r, _) = begin_join(&cfg, GUILD, USER);
            for k in 0..8 {
                let ev = if mask & (1 << k) != 0 {
                    err("e")
                } else if k == 1 {
                    Ok(first.clone())
                } else {
                    Ok(vec![])
                };
                let (next, _) = join_step(&cfg, r, ev);
                r = next;
            }
            assert_eq!(r.stage, JoinStage::Done);
        }
    }
}
