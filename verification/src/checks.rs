//! The three checks that run before every command: the issuer is an admin
//! in the watched guild, the command's half of the bot is enabled, and the
//! argument mentions another user.
use crate::mention::{
    argument_user_id, command_target, lemma_mention_plain, lemma_mention_round_trip, mention,
    mentioned_id, nickname_mention, user_argument, user_argument_of,
};
use crate::models::{CommandSchema, DiscordConfig};
use crate::replies::{Boss, Notice};
use crate::text::{contains_str, occurs_in};
use vstd::prelude::*;
use vstd::string::*;
use vstd::utf8::{has_width_1_encoding, has_width_2_encoding};

verus! {

/// Why a check stops a command.
#[derive(Debug, Clone, Copy, PartialEq, Eq)]
pub enum CheckFailure {
    WrongGuild,
    LackedPermission,
    NoUserMention,
    CommandDisabled,
}

/// What a check decides.
#[derive(Debug, Clone, Copy, PartialEq, Eq)]
pub enum CheckOutcome {
    Pass,
    Fail(CheckFailure),
}

impl CheckFailure {
    /// The line that the framework logs for a failed check.
    pub fn log_reason(&self) -> (r: &'static str)
        ensures
            r@ == check_log_text(*self),
    {
        match self {
            CheckFailure::WrongGuild => "User issued command from wrong guild",
            CheckFailure::LackedPermission => "User lacked permission",
            CheckFailure::NoUserMention => "Supplied arguments doesn't include a mentioned user",
            CheckFailure::CommandDisabled => "Pitboss is disabled.",
        }
    }
}

/// The logged reason of each failed check.
pub open spec fn check_log_text(f: CheckFailure) -> Seq<char> {
    match f {
        CheckFailure::WrongGuild => "User issued command from wrong guild"@,
        CheckFailure::LackedPermission => "User lacked permission"@,
        CheckFailure::NoUserMention => "Supplied arguments doesn't include a mentioned user"@,
        CheckFailure::CommandDisabled => "Pitboss is disabled."@,
    }
}

/// Whether the member holds one of the admin roles.
pub open spec fn holds_admin_role(admin_roles: Seq<u64>, member_roles: Seq<u64>) -> bool {
    exists|i: int| 0 <= i < admin_roles.len() && member_roles.contains(#[trigger] admin_roles[i])
}

/// What the admin check decides, from the issuer's roles (`None` where the
/// member is not in the cache), the issuer, and the guild the command came
/// from (`None` outside guilds). `None` where the bot panics: the member is
/// needed (there are admin roles to look for) and not cached, or there is
/// no guild.
pub open spec fn admin_check(
    cfg: DiscordConfig,
    member_roles: Option<Seq<u64>>,
    author: u64,
    guild: Option<u64>,
) -> Option<CheckOutcome> {
    if (cfg.admin_roles@.len() > 0 && member_roles is None) || guild is None {
        None
    } else if guild->0 != cfg.guild_id {
        Some(CheckOutcome::Fail(CheckFailure::WrongGuild))
    } else if (cfg.admin_roles@.len() > 0 && holds_admin_role(cfg.admin_roles@, member_roles->0))
        || cfg.admin_users@.contains(author) {
        Some(CheckOutcome::Pass)
    } else {
        Some(CheckOutcome::Fail(CheckFailure::LackedPermission))
    }
}

fn contains_id(v: &Vec<u64>, x: u64) -> (r: bool)
    ensures
        r == v@.contains(x),
{
    let mut i: usize = 0;
    while i < v.len()
        invariant
            i <= v.len(),
            forall|j: int| 0 <= j < i ==> v@[j] != x,
        decreases v.len() - i,
    {
        if v[i] == x {
            assert(v@[i as int] == x);
            return true;
        }
        i = i + 1;
    }
    false
}

/// The admin check: the issuer holds an admin role or is an admin user, and
/// issued the command in the watched guild.
pub fn is_authorized_usr(
    cfg: &DiscordConfig,
    member_roles: &Option<Vec<u64>>,
    author: u64,
    guild: Option<u64>,
) -> (r: Option<CheckOutcome>)
    ensures
        r == admin_check(
            *cfg,
            match member_roles {
                Some(v) => Some(v@),
                None => None,
            },
            author,
            guild,
        ),
{
    let mut is_admin = false;
    let mut i: usize = 0;
    while i < cfg.admin_roles.len()
        invariant
            i <= cfg.admin_roles.len(),
            i > 0 ==> member_roles is Some,
            is_admin == (exists|j: int|
                0 <= j < i && member_roles->0@.contains(#[trigger] cfg.admin_roles@[j])),
        decreases cfg.admin_roles.len() - i,
    {
        match member_roles {
            None => {
                return None;
            },
            Some(roles) => {
                if contains_id(roles, cfg.admin_roles[i]) {
                    is_admin = true;
                }
            },
        }
        i = i + 1;
    }
    if !is_admin {
        is_admin = contains_id(&cfg.admin_users, author);
    }
    match guild {
        None => None,
        Some(g) => {
            if g != cfg.guild_id {
                Some(CheckOutcome::Fail(CheckFailure::WrongGuild))
            } else if is_admin {
                Some(CheckOutcome::Pass)
            } else {
                Some(CheckOutcome::Fail(CheckFailure::LackedPermission))
            }
        },
    }
}

/// Whether the first two bytes of `a` are whole characters, so that the
/// byte range `0..=1` can be sliced out of it.
pub open spec fn first_two_bytes_whole(a: Seq<char>) -> bool {
    ||| (a.len() >= 1 && has_width_2_encoding(a[0] as u32))
    ||| (a.len() >= 2 && has_width_1_encoding(a[0] as u32) && has_width_1_encoding(
        a[1] as u32,
    ))
}

/// Whether `a` starts the way a mention starts, with `<@`.
pub open spec fn opens_mention(a: Seq<char>) -> bool {
    a.len() >= 2 && a[0] == '<' && a[1] == '@'
}

/// Whether `a` ends the way a mention ends, with `>`.
pub open spec fn closes_mention(a: Seq<char>) -> bool {
    a.len() >= 1 && a.last() == '>'
}

/// What the mention check decides for a command's text and its issuer;
/// `None` where the bot panics: no argument, an argument whose first two
/// bytes split a character, or an argument without a user id in it.
pub open spec fn mention_check(message: Seq<char>, author: u64) -> Option<CheckOutcome> {
    match user_argument(message) {
        None => None,
        Some(a) => argument_check(a, author),
    }
}

/// What the mention check decides for the command's argument `a`: it passes
/// when `a` is `<@`, anything, `>`, with a user id other than the issuer's
/// in its digits. `None` where the bot panics: the first two bytes of `a`
/// split a character, or `a` holds no user id.
pub open spec fn argument_check(a: Seq<char>, author: u64) -> Option<CheckOutcome> {
    if !first_two_bytes_whole(a) {
        None
    } else {
        match mentioned_id(a) {
            None => None,
            Some(id) => Some(
                if opens_mention(a) && closes_mention(a) && author != id {
                    CheckOutcome::Pass
                } else {
                    CheckOutcome::Fail(CheckFailure::NoUserMention)
                },
            ),
        }
    }
}

/// The mention check: the command's argument is a mention, and not one of
/// the issuer. A mention of another user passes; one of the issuer fails.
pub fn is_usr_mention(message: &str, author: u64) -> (r: Option<CheckOutcome>)
    ensures
        r == mention_check(message@, author),
        forall|id: u64|
            message@ == #[trigger] mention(id) ==> r == Some(
                if author != id {
                    CheckOutcome::Pass
                } else {
                    CheckOutcome::Fail(CheckFailure::NoUserMention)
                },
            ),
        forall|id: u64|
            message@ == #[trigger] nickname_mention(id) ==> r == Some(
                if author != id {
                    CheckOutcome::Pass
                } else {
                    CheckOutcome::Fail(CheckFailure::NoUserMention)
                },
            ),
{
    let r = match user_argument_of(message) {
        None => None,
        Some(arg) => mention_decision(arg.as_str(), author),
    };
    proof {
        assert forall|uid: u64| message@ == #[trigger] mention(uid) implies r == Some(
            if author != uid {
                CheckOutcome::Pass
            } else {
                CheckOutcome::Fail(CheckFailure::NoUserMention)
            },
        ) by {
            lemma_mention_shape(uid);
            lemma_mention_round_trip(uid);
        }
        assert forall|uid: u64| message@ == #[trigger] nickname_mention(uid) implies r == Some(
            if author != uid {
                CheckOutcome::Pass
            } else {
                CheckOutcome::Fail(CheckFailure::NoUserMention)
            },
        ) by {
            lemma_mention_shape(uid);
            lemma_mention_round_trip(uid);
        }
    }
    r
}

/// The mention check on the command's argument `a` itself, as serenity's
/// parser gave it; `None` where the bot panics.
pub fn mention_decision(a: &str, author: u64) -> (r: Option<CheckOutcome>)
    ensures
        r == argument_check(a@, author),
{
    let n = a.unicode_len();
    if n == 0 {
        return None;
    }
    let c0 = a.get_char(0);
    let v0: u32 = c0 as u32;
    let whole = if 0x80 <= v0 && v0 <= 0x7FF {
        true
    } else if v0 <= 0x7F && n >= 2 {
        let v1: u32 = a.get_char(1) as u32;
        v1 <= 0x7F
    } else {
        false
    };
    if !whole {
        return None;
    }
    let opens = n >= 2 && c0 == '<' && a.get_char(1) == '@';
    let closes = a.get_char(n - 1) == '>';
    match argument_user_id(a) {
        None => None,
        Some(id) => Some(
            if opens && closes && author != id {
                CheckOutcome::Pass
            } else {
                CheckOutcome::Fail(CheckFailure::NoUserMention)
            },
        ),
    }
}

/// A mention, plain or nickname, is read as its own argument, starts with
/// two one-byte characters `<@` and ends with `>`.
proof fn lemma_mention_shape(id: u64)
    ensures
        first_two_bytes_whole(mention(id)),
        opens_mention(mention(id)),
        closes_mention(mention(id)),
        first_two_bytes_whole(nickname_mention(id)),
        opens_mention(nickname_mention(id)),
        closes_mention(nickname_mention(id)),
        mention(id).len() > 0,
        !mention(id).contains(' '),
        !mention(id).contains('"'),
        nickname_mention(id).len() > 0,
        !nickname_mention(id).contains(' '),
        !nickname_mention(id).contains('"'),
{
    lemma_mention_plain(id);
    let m = mention(id);
    let k = nickname_mention(id);
    assert(m[0] == '<' && m[1] == '@' && m.last() == '>');
    assert(k[0] == '<' && k[1] == '@' && k.last() == '>');
    assert(('<' as u32) == 60 && ('@' as u32) == 64);
}

/// Law: the mention check passes only for an argument that is written as a
/// mention and names a user other than the issuer; so a command never goes
/// ahead against the user who issued it, whether they wrote `<@id>` or
/// `<@!id>`.
pub proof fn lemma_mention_check_excludes_issuer(a: Seq<char>, message: Seq<char>, author: u64)
    ensures
        argument_check(a, author) == Some(CheckOutcome::Pass) ==> opens_mention(a)
            && closes_mention(a) && mentioned_id(a) is Some && mentioned_id(a)->0 != author,
        mention_check(message, author) == Some(CheckOutcome::Pass) ==> command_target(message)
            is Some && command_target(message)->0 != author,
{
}

/// Law: in the watched guild, an issuer who holds any one of the admin roles
/// passes the admin check, whatever the other roles are.
pub proof fn lemma_admin_role_passes(
    cfg: DiscordConfig,
    roles: Seq<u64>,
    author: u64,
    i: int,
)
    requires
        0 <= i < cfg.admin_roles@.len(),
        roles.contains(cfg.admin_roles@[i]),
    ensures
        admin_check(cfg, Some(roles), author, Some(cfg.guild_id)) == Some(CheckOutcome::Pass),
{
}

/// Law: in the watched guild, an admin user passes the admin check, provided
/// the bot can see their roles where it looks at them.
pub proof fn lemma_admin_user_passes(cfg: DiscordConfig, roles: Option<Seq<u64>>, author: u64)
    requires
        cfg.admin_users@.contains(author),
        cfg.admin_roles@.len() > 0 ==> roles is Some,
    ensures
        admin_check(cfg, roles, author, Some(cfg.guild_id)) == Some(CheckOutcome::Pass),
{
}

/// Law: a pass of the admin check needs the watched guild, and either one of
/// the admin roles among the issuer's roles or the issuer among the admin
/// users; a command from another guild always fails as from the wrong guild.
pub proof fn lemma_admin_pass_needs(
    cfg: DiscordConfig,
    roles: Option<Seq<u64>>,
    author: u64,
    guild: Option<u64>,
)
    ensures
        admin_check(cfg, roles, author, guild) == Some(CheckOutcome::Pass) ==> guild == Some(
            cfg.guild_id,
        ) && ((exists|i: int|
            0 <= i < cfg.admin_roles@.len() && roles->0.contains(#[trigger] cfg.admin_roles@[i]))
            || cfg.admin_users@.contains(author)),
        (guild matches Some(g) && g != cfg.guild_id && (cfg.admin_roles@.len() > 0 ==> roles
            is Some)) ==> admin_check(cfg, roles, author, guild) == Some(
            CheckOutcome::Fail(CheckFailure::WrongGuild),
        ),
{
}

/// Which half of the bot, if any, is switched off for the command `name`:
/// the ban half for names that contain `ban`, the pit half for names that
/// contain `pit`, the ban half taking precedence.
pub open spec fn disabled_boss(commands: CommandSchema, name: Seq<char>) -> Option<Boss> {
    if !commands.enable_banboss && occurs_in(name, "ban"@) {
        Some(Boss::Ban)
    } else if !commands.enable_pitboss && occurs_in(name, "pit"@) {
        Some(Boss::Pit)
    } else {
        None
    }
}

/// Law: switching off the pit half stops `pit` and `unpit` and lets `ban`,
/// `unban` and `force_unban` through while the ban half is on; switching off
/// the ban half stops `ban`, `unban` and `force_unban` and lets `pit` and
/// `unpit` through while the pit half is on; with both halves on, no command
/// is stopped.
pub proof fn lemma_disabled_commands(commands: CommandSchema)
    ensures
        !commands.enable_pitboss ==> disabled_boss(commands, "pit"@) is Some && disabled_boss(
            commands,
            "unpit"@,
        ) is Some,
        !commands.enable_banboss ==> disabled_boss(commands, "ban"@) == Some(Boss::Ban)
            && disabled_boss(commands, "unban"@) == Some(Boss::Ban) && disabled_boss(
            commands,
            "force_unban"@,
        ) == Some(Boss::Ban),
        commands.enable_banboss ==> disabled_boss(commands, "ban"@) is None && disabled_boss(
            commands,
            "unban"@,
        ) is None && disabled_boss(commands, "force_unban"@) is None,
        commands.enable_pitboss ==> disabled_boss(commands, "pit"@) is None && disabled_boss(
            commands,
            "unpit"@,
        ) is None,
        commands.enable_pitboss && commands.enable_banboss ==> forall|name: Seq<char>|
            disabled_boss(commands, name) is None,
{
    reveal_strlit("pit");
    reveal_strlit("unpit");
    reveal_strlit("ban");
    reveal_strlit("unban");
    reveal_strlit("force_unban");
    assert("pit"@.subrange(0, 0 + "pit"@.len() as int) =~= "pit"@);
    assert("unpit"@.subrange(2, 2 + "pit"@.len() as int) =~= "pit"@);
    assert("ban"@.subrange(0, 0 + "ban"@.len() as int) =~= "ban"@);
    assert("unban"@.subrange(2, 2 + "ban"@.len() as int) =~= "ban"@);
    assert("force_unban"@.subrange(8, 8 + "ban"@.len() as int) =~= "ban"@);
    lemma_lacks("ban"@, "pit"@);
    lemma_lacks("unban"@, "pit"@);
    lemma_lacks("force_unban"@, "pit"@);
    lemma_lacks("pit"@, "ban"@);
    lemma_lacks("unpit"@, "ban"@);
}

/// A text in which the first character of `needle` does not occur does not
/// hold `needle`.
proof fn lemma_lacks(hay: Seq<char>, needle: Seq<char>)
    requires
        needle.len() > 0,
        !hay.contains(needle[0]),
    ensures
        !occurs_in(hay, needle),
{
    assert forall|i: int| 0 <= i && i + needle.len() <= hay.len() implies #[trigger] hay.subrange(
        i,
        i + needle.len(),
    ) != needle by {
        assert(hay.subrange(i, i + needle.len())[0] == hay[i]);
    }
}

/// Law: a command is stopped for one half only if that half is switched off
/// and the command's name belongs to it (holds `pit` or `ban`); and a
/// command whose name belongs to a switched-off half is always stopped.
pub proof fn lemma_disabled_boss_reasons(commands: CommandSchema, name: Seq<char>)
    ensures
        disabled_boss(commands, name) == Some(Boss::Pit) ==> !commands.enable_pitboss && occurs_in(
            name,
            "pit"@,
        ),
        disabled_boss(commands, name) == Some(Boss::Ban) ==> !commands.enable_banboss && occurs_in(
            name,
            "ban"@,
        ),
        (!commands.enable_pitboss && occurs_in(name, "pit"@)) || (!commands.enable_banboss
            && occurs_in(name, "ban"@)) ==> disabled_boss(commands, name) is Some,
{
}

/// What the enabled check decides: its outcome, and the notice it sends to
/// the command's channel when it stops the command.
#[derive(Debug, Clone, PartialEq, Eq)]
pub struct EnableCheck {
    pub outcome: CheckOutcome,
    pub notice: Option<Notice>,
}

/// The enabled check for the command named `name`.
pub fn enable_check(commands: &CommandSchema, name: &str) -> (r: EnableCheck)
    ensures
        r == (match disabled_boss(*commands, name@) {
            Some(boss) => EnableCheck {
                outcome: CheckOutcome::Fail(CheckFailure::CommandDisabled),
                notice: Some(Notice::CommandDisabled { boss }),
            },
            None => EnableCheck { outcome: CheckOutcome::Pass, notice: None },
        }),
{
    let mut boss: Option<Boss> = None;
    if !commands.enable_pitboss && contains_str(name, "pit") {
        boss = Some(Boss::Pit);
    }
    if !commands.enable_banboss && contains_str(name, "ban") {
        boss = Some(Boss::Ban);
    }
    match boss {
        Some(b) => EnableCheck {
            outcome: CheckOutcome::Fail(CheckFailure::CommandDisabled),
            notice: Some(Notice::CommandDisabled { boss: b }),
        },
        None => EnableCheck { outcome: CheckOutcome::Pass, notice: None },
    }
}

} // verus!
