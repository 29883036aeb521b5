//! What the bot says: each message it can send, as a value, and the text of
//! each (the embed's title, description, field, colour and footer).
use crate::mention::{mention, push_mention};
use crate::models::{DiscordConfig, Embed};
use crate::text::{decimal, push_decimal};
use vstd::prelude::*;
use vstd::string::*;

verus! {

/// The colour of an embed that reports a failure.
pub const FAILURE_COLOUR: u32 = 0x00FF_0000;

/// The colour of an embed that reports a success.
pub const SUCCESS_COLOUR: u32 = 0x0000_960C;

/// The colour of an embed that reports a user put on the watchlist.
pub const WATCHLIST_COLOUR: u32 = 0x00E7_9900;

/// The two halves of the bot, each of which the configuration can switch off.
#[derive(Debug, Clone, Copy, PartialEq, Eq)]
pub enum Boss {
    Pit,
    Ban,
}

/// The direct messages whose text the configuration file holds.
#[derive(Debug, Clone, Copy, PartialEq, Eq)]
pub enum Configured {
    /// To a banned user who joins again.
    BanEvade,
    /// To a user who is being banned.
    Ban,
    /// To a pitted user who joins again.
    PitEvade,
    /// To a user who has been pitted.
    Pit,
    /// To a user who has been let out of the pit.
    Unpit,
}

/// Every message that the bot sends. `trace` is the debug text of the error
/// that the message reports.
#[derive(Debug, Clone, PartialEq, Eq)]
pub enum Notice {
    AlreadyBanned { user: u64 },
    NotBanned { user: u64, trace: String },
    BanFailed { user: u64, trace: String },
    Banned { user: u64 },
    BanWatchlisted { user: u64 },
    Pardoned { user: u64 },
    NotPardoned { user: u64, trace: String },
    AlreadyPitted { user: u64 },
    NotPitted { user: u64, trace: String },
    Pitted { user: u64 },
    PitWatchlisted { user: u64 },
    PitRemovalFailed { trace: String },
    Unpitted { user: u64 },
    PitUnwatched { user: u64 },
    CommandDisabled { boss: Boss },
    EvaderNotBanned { user: u64, trace: String },
    EvaderBanned { user: u64 },
    EvaderNotPitted { user: u64, trace: String },
    EvaderPitted { user: u64 },
    Configured { which: Configured },
}

/// A message ready to be sent: an optional plain content and one embed.
/// The embed's field, where there is one, is inline.
#[derive(Debug, Clone, PartialEq, Eq)]
pub struct Reply {
    pub content: Option<String>,
    pub title: String,
    pub description: Option<String>,
    pub field: Option<(String, String)>,
    pub color: u32,
    pub footer: String,
}

/// The text of a [`Reply`].
pub struct ReplyView {
    pub content: Option<Seq<char>>,
    pub title: Seq<char>,
    pub description: Option<Seq<char>>,
    pub field: Option<(Seq<char>, Seq<char>)>,
    pub color: u32,
    pub footer: Seq<char>,
}

impl View for Reply {
    type V = ReplyView;

    open spec fn view(&self) -> ReplyView {
        ReplyView {
            content: match self.content {
                Some(c) => Some(c@),
                None => None,
            },
            title: self.title@,
            description: match self.description {
                Some(d) => Some(d@),
                None => None,
            },
            field: match self.field {
                Some(f) => Some((f.0@, f.1@)),
                None => None,
            },
            color: self.color,
            footer: self.footer@,
        }
    }
}

/// The footer of every embed the bot sends.
pub open spec fn footer_text() -> Seq<char> {
    "This is an automated message | Bot by Dunkel#0001"@
}

/// The content that carries the debug text of an error.
pub open spec fn trace_text(trace: Seq<char>) -> Seq<char> {
    "**TRACE LOG**\n```"@ + trace + "```"@
}

/// A mention of `user` followed by `rest`.
pub open spec fn about(user: u64, rest: Seq<char>) -> Seq<char> {
    mention(user) + rest
}

/// An embed with a title, a description and a colour.
pub open spec fn plain(title: Seq<char>, description: Seq<char>, color: u32) -> ReplyView {
    ReplyView {
        content: None,
        title,
        description: Some(description),
        field: None,
        color,
        footer: footer_text(),
    }
}

/// An embed with a title, a description and a colour, below the debug text of an error.
pub open spec fn traced(trace: Seq<char>, title: Seq<char>, description: Seq<char>) -> ReplyView {
    ReplyView {
        content: Some(trace_text(trace)),
        title,
        description: Some(description),
        field: None,
        color: FAILURE_COLOUR,
        footer: footer_text(),
    }
}

/// A watchlist embed: title, description and the explaining field.
pub open spec fn watchlisted(title: Seq<char>, description: Seq<char>, name: Seq<char>) -> ReplyView {
    ReplyView {
        content: None,
        title,
        description: Some(description),
        field: Some((name, "You will be alerted if this user joins the server."@)),
        color: WATCHLIST_COLOUR,
        footer: footer_text(),
    }
}

/// The embed of a configured direct message.
pub open spec fn configured_text(e: Embed) -> ReplyView {
    ReplyView {
        content: None,
        title: e.title@,
        description: Some(e.subtitle@),
        field: Some((e.attract@, e.warning@)),
        color: e.color,
        footer: footer_text(),
    }
}

/// The configured embed that a direct message uses.
pub open spec fn configured_embed(which: Configured, cfg: DiscordConfig) -> Embed {
    match which {
        Configured::BanEvade => cfg.ban_evade_msg,
        Configured::Ban => cfg.ban_msg,
        Configured::PitEvade => cfg.pit_evade_msg,
        Configured::Pit => cfg.pit_msg,
        Configured::Unpit => cfg.unpit_msg,
    }
}

/// The name of a boss as it starts the disabled notice.
pub open spec fn boss_name(boss: Boss) -> Seq<char> {
    match boss {
        Boss::Pit => "Pit"@,
        Boss::Ban => "Ban"@,
    }
}

/// The text of each message.
pub open spec fn notice_text(n: Notice, cfg: DiscordConfig) -> ReplyView {
    match n {
        Notice::AlreadyBanned { user } => plain(
            "User already banned"@,
            about(user, " is already banned."@),
            FAILURE_COLOUR,
        ),
        Notice::NotBanned { user, trace } => traced(
            trace@,
            "Banning failed!"@,
            about(user, " has NOT been banned.\nPlease try again later"@),
        ),
        Notice::BanFailed { user, trace } => traced(
            trace@,
            "Ban failed!"@,
            about(user, " has NOT been banned.\nPlease try again later"@),
        ),
        Notice::Banned { user } => plain(
            "Success"@,
            about(user, " has been banned."@),
            SUCCESS_COLOUR,
        ),
        Notice::BanWatchlisted { user } => watchlisted(
            "Banboss Success"@,
            about(user, " has been added to the Banboss watchlist."@),
            "Banboss checks users joining the server and automatically bans if a match is found."@,
        ),
        Notice::Pardoned { user } => plain(
            "Success"@,
            about(user, " has been pardoned."@),
            SUCCESS_COLOUR,
        ),
        Notice::NotPardoned { user, trace } => traced(
            trace@,
            "Pardon failed!"@,
            about(user, " has NOT been pardoned.\nPlease try again later"@),
        ),
        Notice::AlreadyPitted { user } => plain(
            "User already pitted"@,
            about(user, " is already in THE PIT."@),
            FAILURE_COLOUR,
        ),
        Notice::NotPitted { user, trace } => traced(
            trace@,
            "Pitting failed!"@,
            about(user, " has NOT been pitted.\nPlease try again later"@),
        ),
        Notice::Pitted { user } => plain(
            "Success"@,
            about(user, " has been pitted."@),
            SUCCESS_COLOUR,
        ),
        Notice::PitWatchlisted { user } => watchlisted(
            "Pitboss Success"@,
            about(user, " has been added to the Pitboss watchlist."@),
            "Pitboss checks users joining the server and takes action if a match is found."@,
        ),
        Notice::PitRemovalFailed { trace } => ReplyView {
            content: Some(trace_text(trace@)),
            title: "Pit removal failed!"@,
            description: None,
            field: Some(("User may still be pitted"@, "Please try again later"@)),
            color: FAILURE_COLOUR,
            footer: footer_text(),
        },
        Notice::Unpitted { user } => plain(
            "Success"@,
            about(user, " has been un-pitted."@),
            SUCCESS_COLOUR,
        ),
        Notice::PitUnwatched { user } => plain(
            "Success"@,
            about(user, " has been removed from the Pitboss watchlist."@),
            SUCCESS_COLOUR,
        ),
        Notice::CommandDisabled { boss } => plain(
            "Command Disabled"@,
            boss_name(boss) + "boss has been disabled."@,
            FAILURE_COLOUR,
        ),
        Notice::EvaderNotBanned { user, trace } => traced(
            trace@,
            "Banning failed!"@,
            about(user, " is on the Banboss watchlist and wasn't banned!"@),
        ),
        Notice::EvaderBanned { user } => plain(
            "Banboss Success"@,
            about(user, " is on the Banboss watchlist and was banned."@),
            SUCCESS_COLOUR,
        ),
        Notice::EvaderNotPitted { user, trace } => traced(
            trace@,
            "Pitting failed!"@,
            about(user, " is on the Pitboss watchlist and wasn't pitted!"@),
        ),
        Notice::EvaderPitted { user } => plain(
            "Pitboss Success"@,
            about(user, " is on the Pitboss watchlist and was pitted"@),
            SUCCESS_COLOUR,
        ),
        Notice::Configured { which } => configured_text(configured_embed(which, cfg)),
    }
}

/// A new string holding a mention of `user` followed by `rest`.
fn about_string(user: u64, rest: &str) -> (r: String)
    ensures
        r@ == about(user, rest@),
{
    let mut s = String::new();
    push_mention(&mut s, user);
    s.append(rest);
    assert(s@ =~= about(user, rest@));
    s
}

fn footer() -> (r: String)
    ensures
        r@ == footer_text(),
{
    String::from_str("This is an automated message | Bot by Dunkel#0001")
}

fn plain_reply(title: &str, description: String, color: u32) -> (r: Reply)
    ensures
        r@ == plain(title@, description@, color),
{
    Reply {
        content: None,
        title: String::from_str(title),
        description: Some(description),
        field: None,
        color,
        footer: footer(),
    }
}

fn traced_reply(trace: String, title: &str, description: String) -> (r: Reply)
    ensures
        r@ == traced(trace@, title@, description@),
{
    let mut content = String::from_str("**TRACE LOG**\n```");
    content.append(trace.as_str());
    content.append("```");
    assert(content@ =~= trace_text(trace@));
    Reply {
        content: Some(content),
        title: String::from_str(title),
        description: Some(description),
        field: None,
        color: FAILURE_COLOUR,
        footer: footer(),
    }
}

fn watchlist_reply(title: &str, description: String, name: &str) -> (r: Reply)
    ensures
        r@ == watchlisted(title@, description@, name@),
{
    Reply {
        content: None,
        title: String::from_str(title),
        description: Some(description),
        field: Some(
            (
                String::from_str(name),
                String::from_str("You will be alerted if this user joins the server."),
            ),
        ),
        color: WATCHLIST_COLOUR,
        footer: footer(),
    }
}

fn configured_reply(e: &Embed) -> (r: Reply)
    ensures
        r@ == configured_text(*e),
{
    Reply {
        content: None,
        title: e.title.clone(),
        description: Some(e.subtitle.clone()),
        field: Some((e.attract.clone(), e.warning.clone())),
        color: e.color,
        footer: footer(),
    }
}

/// The text of a message, with the configured direct messages taken from `cfg`.
pub fn render(n: &Notice, cfg: &DiscordConfig) -> (r: Reply)
    ensures
        r@ == notice_text(*n, *cfg),
{
    match n {
        Notice::AlreadyBanned { user } => plain_reply(
            "User already banned",
            about_string(*user, " is already banned."),
            FAILURE_COLOUR,
        ),
        Notice::NotBanned { user, trace } => traced_reply(
            trace.clone(),
            "Banning failed!",
            about_string(*user, " has NOT been banned.\nPlease try again later"),
        ),
        Notice::BanFailed { user, trace } => traced_reply(
            trace.clone(),
            "Ban failed!",
            about_string(*user, " has NOT been banned.\nPlease try again later"),
        ),
        Notice::Banned { user } => plain_reply(
            "Success",
            about_string(*user, " has been banned."),
            SUCCESS_COLOUR,
        ),
        Notice::BanWatchlisted { user } => watchlist_reply(
            "Banboss Success",
            about_string(*user, " has been added to the Banboss watchlist."),
            "Banboss checks users joining the server and automatically bans if a match is found.",
        ),
        Notice::Pardoned { user } => plain_reply(
            "Success",
            about_string(*user, " has been pardoned."),
            SUCCESS_COLOUR,
        ),
        Notice::NotPardoned { user, trace } => traced_reply(
            trace.clone(),
            "Pardon failed!",
            about_string(*user, " has NOT been pardoned.\nPlease try again later"),
        ),
        Notice::AlreadyPitted { user } => plain_reply(
            "User already pitted",
            about_string(*user, " is already in THE PIT."),
            FAILURE_COLOUR,
        ),
        Notice::NotPitted { user, trace } => traced_reply(
            trace.clone(),
            "Pitting failed!",
            about_string(*user, " has NOT been pitted.\nPlease try again later"),
        ),
        Notice::Pitted { user } => plain_reply(
            "Success",
            about_string(*user, " has been pitted."),
            SUCCESS_COLOUR,
        ),
        Notice::PitWatchlisted { user } => watchlist_reply(
            "Pitboss Success",
            about_string(*user, " has been added to the Pitboss watchlist."),
            "Pitboss checks users joining the server and takes action if a match is found.",
        ),
        Notice::PitRemovalFailed { trace } => {
            let base = traced_reply(trace.clone(), "Pit removal failed!", String::new());
            Reply {
                content: base.content,
                title: base.title,
                description: None,
                field: Some(
                    (
                        String::from_str("User may still be pitted"),
                        String::from_str("Please try again later"),
                    ),
                ),
                color: FAILURE_COLOUR,
                footer: base.footer,
            }
        },
        Notice::Unpitted { user } => plain_reply(
            "Success",
            about_string(*user, " has been un-pitted."),
            SUCCESS_COLOUR,
        ),
        Notice::PitUnwatched { user } => plain_reply(
            "Success",
            about_string(*user, " has been removed from the Pitboss watchlist."),
            SUCCESS_COLOUR,
        ),
        Notice::CommandDisabled { boss } => {
            let mut d = match boss {
                Boss::Pit => String::from_str("Pit"),
                Boss::Ban => String::from_str("Ban"),
            };
            d.append("boss has been disabled.");
            plain_reply("Command Disabled", d, FAILURE_COLOUR)
        },
        Notice::EvaderNotBanned { user, trace } => traced_reply(
            trace.clone(),
            "Banning failed!",
            about_string(*user, " is on the Banboss watchlist and wasn't banned!"),
        ),
        Notice::EvaderBanned { user } => plain_reply(
            "Banboss Success",
            about_string(*user, " is on the Banboss watchlist and was banned."),
            SUCCESS_COLOUR,
        ),
        Notice::EvaderNotPitted { user, trace } => traced_reply(
            trace.clone(),
            "Pitting failed!",
            about_string(*user, " is on the Pitboss watchlist and wasn't pitted!"),
        ),
        Notice::EvaderPitted { user } => plain_reply(
            "Pitboss Success",
            about_string(*user, " is on the Pitboss watchlist and was pitted"),
            SUCCESS_COLOUR,
        ),
        Notice::Configured { which } => match which {
            Configured::BanEvade => configured_reply(&cfg.ban_evade_msg),
            Configured::Ban => configured_reply(&cfg.ban_msg),
            Configured::PitEvade => configured_reply(&cfg.pit_evade_msg),
            Configured::Pit => configured_reply(&cfg.pit_msg),
            Configured::Unpit => configured_reply(&cfg.unpit_msg),
        },
    }
}

/// The user a message is about, for the messages that name one.
pub open spec fn notice_user(n: Notice) -> Option<u64> {
    match n {
        Notice::AlreadyBanned { user } => Some(user),
        Notice::NotBanned { user, .. } => Some(user),
        Notice::BanFailed { user, .. } => Some(user),
        Notice::Banned { user } => Some(user),
        Notice::BanWatchlisted { user } => Some(user),
        Notice::Pardoned { user } => Some(user),
        Notice::NotPardoned { user, .. } => Some(user),
        Notice::AlreadyPitted { user } => Some(user),
        Notice::NotPitted { user, .. } => Some(user),
        Notice::Pitted { user } => Some(user),
        Notice::PitWatchlisted { user } => Some(user),
        Notice::Unpitted { user } => Some(user),
        Notice::PitUnwatched { user } => Some(user),
        Notice::EvaderNotBanned { user, .. } => Some(user),
        Notice::EvaderBanned { user } => Some(user),
        Notice::EvaderNotPitted { user, .. } => Some(user),
        Notice::EvaderPitted { user } => Some(user),
        _ => None,
    }
}

/// The error text a message reports, for the messages that report one.
pub open spec fn notice_trace(n: Notice) -> Option<String> {
    match n {
        Notice::NotBanned { trace, .. } => Some(trace),
        Notice::BanFailed { trace, .. } => Some(trace),
        Notice::NotPardoned { trace, .. } => Some(trace),
        Notice::NotPitted { trace, .. } => Some(trace),
        Notice::PitRemovalFailed { trace } => Some(trace),
        Notice::EvaderNotBanned { trace, .. } => Some(trace),
        Notice::EvaderNotPitted { trace, .. } => Some(trace),
        _ => None,
    }
}

/// Whether a description opens with the mention of `user`.
pub open spec fn opens_with_mention(description: Option<Seq<char>>, user: u64) -> bool {
    &&& description is Some
    &&& description->0.len() >= mention(user).len()
    &&& description->0.subrange(0, mention(user).len() as int) == mention(user)
}

/// Law: every embed carries the bot's footer; a message about a user opens
/// its description with that user's mention; a message that reports an
/// error carries the error's text, and the colour is the failure colour;
/// only reports of an error carry a content besides the embed.
pub proof fn lemma_notice_shape(n: Notice, cfg: DiscordConfig)
    ensures
        notice_text(n, cfg).footer == footer_text(),
        notice_user(n) matches Some(u) ==> opens_with_mention(notice_text(n, cfg).description, u),
        notice_trace(n) matches Some(t) ==> notice_text(n, cfg).content == Some(trace_text(t@))
            && notice_text(n, cfg).color == FAILURE_COLOUR,
        notice_trace(n) is None ==> notice_text(n, cfg).content is None,
{
    if let Some(u) = notice_user(n) {
        let d = notice_text(n, cfg).description->0;
        assert(d.subrange(0, mention(u).len() as int) =~= mention(u));
    }
}

/// Every line that the bot prints to its own output.
#[derive(Debug, Clone, PartialEq, Eq)]
pub enum LogLine {
    AddBanError { trace: String },
    RemoveBanError { trace: String },
    AddPitError { trace: String },
    RemovePitError { trace: String },
    MemberJoined { user: u64, guild: u64 },
    NoRecords { user: u64 },
    RecordFound { user: u64 },
}

/// The text of each printed line.
pub open spec fn log_text(line: LogLine) -> Seq<char> {
    match line {
        LogLine::AddBanError { trace } => "Error adding ban: "@ + trace@,
        LogLine::RemoveBanError { trace } => "Error removing ban: "@ + trace@,
        LogLine::AddPitError { trace } => "Error adding pit: "@ + trace@,
        LogLine::RemovePitError { trace } => "Error removing pit: "@ + trace@,
        LogLine::MemberJoined { user, guild } => "User "@ + decimal(user as nat) + " has joined Guild "@
            + decimal(guild as nat),
        LogLine::NoRecords { user } => "No records found for "@ + decimal(user as nat),
        LogLine::RecordFound { user } => "HEY! Record found for "@ + decimal(user as nat) + "!"@,
    }
}

/// The text of a printed line.
pub fn render_log(line: &LogLine) -> (r: String)
    ensures
        r@ == log_text(*line),
{
    match line {
        LogLine::AddBanError { trace } => String::from_str("Error adding ban: ").concat(
            trace.as_str(),
        ),
        LogLine::RemoveBanError { trace } => String::from_str("Error removing ban: ").concat(
            trace.as_str(),
        ),
        LogLine::AddPitError { trace } => String::from_str("Error adding pit: ").concat(
            trace.as_str(),
        ),
        LogLine::RemovePitError { trace } => String::from_str("Error removing pit: ").concat(
            trace.as_str(),
        ),
        LogLine::MemberJoined { user, guild } => {
            let mut s = String::from_str("User ");
            push_decimal(&mut s, *user);
            s.append(" has joined Guild ");
            push_decimal(&mut s, *guild);
            assert(s@ =~= log_text(*line));
            s
        },
        LogLine::NoRecords { user } => {
            let mut s = String::from_str("No records found for ");
            push_decimal(&mut s, *user);
            s
        },
        LogLine::RecordFound { user } => {
            let mut s = String::from_str("HEY! Record found for ");
            push_decimal(&mut s, *user);
            s.append("!");
            assert(s@ =~= log_text(*line));
            s
        },
    }
}

} // verus!
