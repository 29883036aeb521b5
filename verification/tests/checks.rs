use pitboss::checks::{
    enable_check, is_authorized_usr, is_usr_mention, mention_decision, CheckFailure, CheckOutcome,
    EnableCheck,
};
use pitboss::models::{CommandSchema, DiscordConfig, Embed};
use pitboss::replies::{Boss, Notice};

fn embed(tag: &str) -> Embed {
    Embed {
        title: format!("{} title", tag),
        subtitle: format!("{} subtitle", tag),
        color: 0x123456,
        attract: format!("{} attract", tag),
        warning: format!("{} warning", tag),
    }
}

fn config(admin_roles: Vec<u64>, admin_users: Vec<u64>) -> DiscordConfig {
    DiscordConfig {
        guild_id: 100,
        admin_roles,
        admin_users,
        report_channel: 200,
        pit_role: 300,
        commands: CommandSchema { enable_pitboss: true, enable_banboss: true },
        token: "SECRET-REDACTED".to_string(),
        ban_evade_msg: embed("ban evade"),
        ban_msg: embed("ban"),
        pit_evade_msg: embed("pit evade"),
        pit_msg: embed("pit"),
        unpit_msg: embed("unpit"),
    }
}

#[test]
fn admin_role_in_guild_passes() {
    let cfg = config(vec![1, 2], vec![]);
    assert_eq!(is_authorized_usr(&cfg, &Some(vec![5, 2]), 9, Some(100)), Some(CheckOutcome::Pass));
}

#[test]
fn admin_user_in_guild_passes() {
    let cfg = config(vec![1], vec![9]);
    assert_eq!(is_authorized_usr(&cfg, &Some(vec![5]), 9, Some(100)), Some(CheckOutcome::Pass));
    let cfg = config(vec![], vec![9]);
    assert_eq!(is_authorized_usr(&cfg, &None, 9, Some(100)), Some(CheckOutcome::Pass));
}

#[test]
fn other_guild_fails_even_for_admins() {
    let cfg = config(vec![1], vec![9]);
    assert_eq!(
        is_authorized_usr(&cfg, &Some(vec![1]), 9, Some(101)),
        Some(CheckOutcome::Fail(CheckFailure::WrongGuild))
    );
}

#[test]
fn non_admin_lacks_permission() {
    let cfg = config(vec![1], vec![9]);
    assert_eq!(
        is_authorized_usr(&cfg, &Some(vec![2, 3]), 8, Some(100)),
        Some(CheckOutcome::Fail(CheckFailure::LackedPermission))
    );
    let cfg = config(vec![], vec![]);
    assert_eq!(
        is_authorized_usr(&cfg, &None, 8, Some(100)),
        Some(CheckOutcome::Fail(CheckFailure::LackedPermission))
    );
}

#[test]
fn admin_check_panics_without_member_or_guild() {
    let cfg = config(vec![1], vec![9]);
    assert_eq!(is_authorized_usr(&cfg, &None, 9, Some(100)), None);
    assert_eq!(is_authorized_usr(&cfg, &Some(vec![1]), 9, None), None);
}

#[test]
fn mention_of_another_user_passes() {
    assert_eq!(is_usr_mention("<@5>", 6), Some(CheckOutcome::Pass));
    assert_eq!(is_usr_mention("<@!5>", 6), Some(CheckOutcome::Pass));
}

#[test]
fn mention_of_oneself_fails() {
    assert_eq!(
        is_usr_mention("<@5>", 5),
        Some(CheckOutcome::Fail(CheckFailure::NoUserMention))
    );
}

#[test]
fn argument_that_is_not_a_mention_fails() {
    assert_eq!(
        is_usr_mention("hello5", 6),
        Some(CheckOutcome::Fail(CheckFailure::NoUserMention))
    );
    assert_eq!(
        is_usr_mention("<@5", 6),
        Some(CheckOutcome::Fail(CheckFailure::NoUserMention))
    );
    assert_eq!(
        is_usr_mention("é5>", 6),
        Some(CheckOutcome::Fail(CheckFailure::NoUserMention))
    );
}

#[test]
fn mention_check_panics_where_the_bot_does() {
    assert_eq!(is_usr_mention("", 6), None);
    assert_eq!(is_usr_mention("<@>", 6), None);
    assert_eq!(is_usr_mention("5", 6), None);
    assert_eq!(is_usr_mention("aé5", 6), None);
    assert_eq!(is_usr_mention("€5", 6), None);
}

#[test]
fn enabled_halves_let_every_command_through() {
    let c = CommandSchema { enable_pitboss: true, enable_banboss: true };
    for name in ["ban", "unban", "force_unban", "pit", "unpit"] {
        assert_eq!(enable_check(&c, name), EnableCheck { outcome: CheckOutcome::Pass, notice: None });
    }
}

#[test]
fn disabled_pit_half_stops_pit_commands() {
    let c = CommandSchema { enable_pitboss: false, enable_banboss: true };
    let stop = EnableCheck {
        outcome: CheckOutcome::Fail(CheckFailure::CommandDisabled),
        notice: Some(Notice::CommandDisabled { boss: Boss::Pit }),
    };
    assert_eq!(enable_check(&c, "pit"), stop);
    assert_eq!(enable_check(&c, "unpit"), stop);
    assert_eq!(enable_check(&c, "ban").outcome, CheckOutcome::Pass);
}

#[test]
fn disabled_ban_half_stops_ban_commands() {
    let c = CommandSchema { enable_pitboss: true, enable_banboss: false };
    let stop = EnableCheck {
        outcome: CheckOutcome::Fail(CheckFailure::CommandDisabled),
        notice: Some(Notice::CommandDisabled { boss: Boss::Ban }),
    };
    assert_eq!(enable_check(&c, "ban"), stop);
    assert_eq!(enable_check(&c, "unban"), stop);
    assert_eq!(enable_check(&c, "force_unban"), stop);
    assert_eq!(enable_check(&c, "unpit").outcome, CheckOutcome::Pass);
}

#[test]
fn ban_half_takes_precedence_in_the_notice() {
    let c = CommandSchema { enable_pitboss: false, enable_banboss: false };
    assert_eq!(
        enable_check(&c, "pitban").notice,
        Some(Notice::CommandDisabled { boss: Boss::Ban })
    );
}

#[test]
fn failed_checks_log_their_reason() {
    assert_eq!(CheckFailure::WrongGuild.log_reason(), "User issued command from wrong guild");
    assert_eq!(CheckFailure::LackedPermission.log_reason(), "User lacked permission");
    assert_eq!(
        CheckFailure::NoUserMention.log_reason(),
        "Supplied arguments doesn't include a mentioned user"
    );
    assert_eq!(CheckFailure::CommandDisabled.log_reason(), "Pitboss is disabled.");
}

#[test]
fn mention_check_on_a_parsed_argument() {
    assert_eq!(mention_decision("<@5>", 6), Some(CheckOutcome::Pass));
    assert_eq!(mention_decision("<@5 x>", 6), Some(CheckOutcome::Pass));
    assert_eq!(
        mention_decision("<@5>", 5),
        Some(CheckOutcome::Fail(CheckFailure::NoUserMention))
    );
    assert_eq!(
        mention_decision("x<@5>", 6),
        Some(CheckOutcome::Fail(CheckFailure::NoUserMention))
    );
    assert_eq!(mention_decision("<@x>", 6), None);
    assert_eq!(mention_decision("<", 6), None);
}
