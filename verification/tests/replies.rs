use pitboss::models::{CommandSchema, DiscordConfig, Embed};
use pitboss::replies::{
    render, render_log, Boss, Configured, LogLine, Notice, Reply, FAILURE_COLOUR, SUCCESS_COLOUR,
    WATCHLIST_COLOUR,
};

const FOOTER: &str = "This is an automated message | Bot by Dunkel#0001";

fn embed(tag: &str, color: u32) -> Embed {
    Embed {
        title: format!("{} title", tag),
        subtitle: format!("{} subtitle", tag),
        color,
        attract: format!("{} attract", tag),
        warning: format!("{} warning", tag),
    }
}

fn config() -> DiscordConfig {
    DiscordConfig {
        guild_id: 100,
        admin_roles: vec![1],
        admin_users: vec![2],
        report_channel: 200,
        pit_role: 300,
        commands: CommandSchema { enable_pitboss: true, enable_banboss: true },
        token: "SECRET-REDACTED".to_string(),
        ban_evade_msg: embed("ban evade", 1),
        ban_msg: embed("ban", 2),
        pit_evade_msg: embed("pit evade", 3),
        pit_msg: embed("pit", 4),
        unpit_msg: embed("unpit", 5),
    }
}

fn plain(title: &str, description: &str, color: u32) -> Reply {
    Reply {
        content: None,
        title: title.to_string(),
        description: Some(description.to_string()),
        field: None,
        color,
        footer: FOOTER.to_string(),
    }
}

#[test]
fn success_replies() {
    let cfg = config();
    assert_eq!(
        render(&Notice::Banned { user: 42 }, &cfg),
        plain("Success", "<@42> has been banned.", SUCCESS_COLOUR)
    );
    assert_eq!(
        render(&Notice::Pardoned { user: 42 }, &cfg),
        plain("Success", "<@42> has been pardoned.", SUCCESS_COLOUR)
    );
    assert_eq!(
        render(&Notice::Pitted { user: 42 }, &cfg),
        plain("Success", "<@42> has been pitted.", SUCCESS_COLOUR)
    );
    assert_eq!(
        render(&Notice::Unpitted { user: 42 }, &cfg),
        plain("Success", "<@42> has been un-pitted.", SUCCESS_COLOUR)
    );
    assert_eq!(
        render(&Notice::PitUnwatched { user: 42 }, &cfg),
        plain("Success", "<@42> has been removed from the Pitboss watchlist.", SUCCESS_COLOUR)
    );
}

#[test]
fn duplicate_replies() {
    let cfg = config();
    assert_eq!(
        render(&Notice::AlreadyBanned { user: 7 }, &cfg),
        plain("User already banned", "<@7> is already banned.", FAILURE_COLOUR)
    );
    assert_eq!(
        render(&Notice::AlreadyPitted { user: 7 }, &cfg),
        plain("User already pitted", "<@7> is already in THE PIT.", FAILURE_COLOUR)
    );
}

#[test]
fn failure_replies_carry_the_trace() {
    let cfg = config();
    let r = render(&Notice::NotBanned { user: 7, trace: "NotFound".to_string() }, &cfg);
    assert_eq!(r.content, Some("**TRACE LOG**\n```NotFound```".to_string()));
    assert_eq!(r.title, "Banning failed!");
    assert_eq!(
        r.description,
        Some("<@7> has NOT been banned.\nPlease try again later".to_string())
    );
    assert_eq!(r.color, FAILURE_COLOUR);
    assert_eq!(r.footer, FOOTER);
    let r = render(&Notice::BanFailed { user: 7, trace: "E".to_string() }, &cfg);
    assert_eq!(r.title, "Ban failed!");
    let r = render(&Notice::NotPardoned { user: 7, trace: "E".to_string() }, &cfg);
    assert_eq!(r.title, "Pardon failed!");
    assert_eq!(
        r.description,
        Some("<@7> has NOT been pardoned.\nPlease try again later".to_string())
    );
    let r = render(&Notice::NotPitted { user: 7, trace: "E".to_string() }, &cfg);
    assert_eq!(r.title, "Pitting failed!");
    assert_eq!(
        r.description,
        Some("<@7> has NOT been pitted.\nPlease try again later".to_string())
    );
}

#[test]
fn pit_removal_failure_has_a_field_and_no_description() {
    let r = render(&Notice::PitRemovalFailed { trace: "E".to_string() }, &config());
    assert_eq!(
        r,
        Reply {
            content: Some("**TRACE LOG**\n```E```".to_string()),
            title: "Pit removal failed!".to_string(),
            description: None,
            field: Some(("User may still be pitted".to_string(), "Please try again later".to_string())),
            color: FAILURE_COLOUR,
            footer: FOOTER.to_string(),
        }
    );
}

#[test]
fn watchlist_replies() {
    let cfg = config();
    let r = render(&Notice::BanWatchlisted { user: 9 }, &cfg);
    assert_eq!(r.title, "Banboss Success");
    assert_eq!(r.description, Some("<@9> has been added to the Banboss watchlist.".to_string()));
    assert_eq!(
        r.field,
        Some((
            "Banboss checks users joining the server and automatically bans if a match is found."
                .to_string(),
            "You will be alerted if this user joins the server.".to_string()
        ))
    );
    assert_eq!(r.color, WATCHLIST_COLOUR);
    let r = render(&Notice::PitWatchlisted { user: 9 }, &cfg);
    assert_eq!(r.title, "Pitboss Success");
    assert_eq!(r.description, Some("<@9> has been added to the Pitboss watchlist.".to_string()));
    assert_eq!(
        r.field.unwrap().0,
        "Pitboss checks users joining the server and takes action if a match is found."
    );
}

#[test]
fn disabled_notice_names_its_half() {
    let cfg = config();
    assert_eq!(
        render(&Notice::CommandDisabled { boss: Boss::Pit }, &cfg),
        plain("Command Disabled", "Pitboss has been disabled.", FAILURE_COLOUR)
    );
    assert_eq!(
        render(&Notice::CommandDisabled { boss: Boss::Ban }, &cfg),
        plain("Command Disabled", "Banboss has been disabled.", FAILURE_COLOUR)
    );
}

#[test]
fn evader_reports() {
    let cfg = config();
    assert_eq!(
        render(&Notice::EvaderBanned { user: 3 }, &cfg),
        plain("Banboss Success", "<@3> is on the Banboss watchlist and was banned.", SUCCESS_COLOUR)
    );
    assert_eq!(
        render(&Notice::EvaderPitted { user: 3 }, &cfg),
        plain("Pitboss Success", "<@3> is on the Pitboss watchlist and was pitted", SUCCESS_COLOUR)
    );
    let r = render(&Notice::EvaderNotBanned { user: 3, trace: "T".to_string() }, &cfg);
    assert_eq!(r.title, "Banning failed!");
    assert_eq!(
        r.description,
        Some("<@3> is on the Banboss watchlist and wasn't banned!".to_string())
    );
    assert_eq!(r.content, Some("**TRACE LOG**\n```T```".to_string()));
    let r = render(&Notice::EvaderNotPitted { user: 3, trace: "T".to_string() }, &cfg);
    assert_eq!(r.title, "Pitting failed!");
    assert_eq!(
        r.description,
        Some("<@3> is on the Pitboss watchlist and wasn't pitted!".to_string())
    );
}

#[test]
fn configured_messages_come_from_the_config() {
    let cfg = config();
    for (which, tag, color) in [
        (Configured::BanEvade, "ban evade", 1),
        (Configured::Ban, "ban", 2),
        (Configured::PitEvade, "pit evade", 3),
        (Configured::Pit, "pit", 4),
        (Configured::Unpit, "unpit", 5),
    ] {
        assert_eq!(
            render(&Notice::Configured { which }, &cfg),
            Reply {
                content: None,
                title: format!("{} title", tag),
                description: Some(format!("{} subtitle", tag)),
                field: Some((format!("{} attract", tag), format!("{} warning", tag))),
                color,
                footer: FOOTER.to_string(),
            }
        );
    }
}

#[test]
fn log_lines() {
    assert_eq!(render_log(&LogLine::AddBanError { trace: "X".to_string() }), "Error adding ban: X");
    assert_eq!(
        render_log(&LogLine::RemoveBanError { trace: "X".to_string() }),
        "Error removing ban: X"
    );
    assert_eq!(render_log(&LogLine::AddPitError { trace: "X".to_string() }), "Error adding pit: X");
    assert_eq!(
        render_log(&LogLine::RemovePitError { trace: "X".to_string() }),
        "Error removing pit: X"
    );
    assert_eq!(
        render_log(&LogLine::MemberJoined { user: 12, guild: 34 }),
        "User 12 has joined Guild 34"
    );
    assert_eq!(render_log(&LogLine::NoRecords { user: 12 }), "No records found for 12");
    assert_eq!(render_log(&LogLine::RecordFound { user: 12 }), "HEY! Record found for 12!");
}
