use vstd::prelude::*;
use vstd::string::StringExecFns;

verus! {

/// Name of the channel in which announcements are posted.
pub const ANNOUNCEMENT_CHANNEL: &'static str = "crosswords";

/// Name of the channel in which members may ask for an announcement.
pub const COMMANDS_CHANNEL: &'static str = "commands";

/// Name of the role that every member of a guild holds.
pub const EVERYONE_ROLE: &'static str = "@everyone";

/// The reaction with which a member acknowledges an announcement.
pub const CHECKMARK: char = '\u{2705}';

/// A text channel of a guild.
#[derive(Clone, Debug)]
pub struct ChannelInfo {
    pub id: u64,
    pub name: String,
}

/// A role of a guild.
#[derive(Clone, Debug)]
pub struct RoleInfo {
    pub id: u64,
    pub name: String,
    pub position: i64,
}

/// Who a permission overwrite applies to.
#[derive(Clone, Copy, Debug, PartialEq, Eq, Structural)]
pub enum Principal {
    Role(u64),
    Member(u64),
}

/// A permission overwrite on a channel: whether it allows or denies reading
/// the channel to one principal.
#[derive(Clone, Copy, Debug, PartialEq, Eq, Structural)]
pub struct PermissionOverwrite {
    pub principal: Principal,
    pub allow_read: bool,
    pub deny_read: bool,
}

/// A permission overwrite to apply to one channel.
#[derive(Clone, Copy, Debug, PartialEq, Eq, Structural)]
pub struct Grant {
    pub channel: u64,
    pub overwrite: PermissionOverwrite,
}

/// What could not be found.
#[derive(Clone, Copy, Debug, PartialEq, Eq, Structural)]
pub enum Missing {
    AnnouncementChannel,
    CompanionChannel,
    EveryoneRole,
    Guild,
    Channel,
    Message,
}

/// Why handling a guild or an event stopped.
#[derive(Clone, Copy, Debug, PartialEq, Eq, Structural)]
pub enum BotError {
    /// A channel, role or message that was expected is missing.
    NotFound(Missing),
    /// A channel of the name to be created already exists.
    Conflict,
    /// The platform refused or failed a request.
    Api,
}

/// Id of the first channel in `channels` named `name`.
pub open spec fn first_named(channels: Seq<ChannelInfo>, name: Seq<char>) -> Option<u64>
    decreases channels.len(),
{
    if channels.len() == 0 {
        None
    } else if channels[0].name@ == name {
        Some(channels[0].id)
    } else {
        first_named(channels.drop_first(), name)
    }
}

/// The role that every member holds: named "@everyone", at the lowest position.
pub open spec fn is_everyone(role: RoleInfo) -> bool {
    role.position <= 0 && role.name@ == EVERYONE_ROLE@
}

/// Id of the first role in `roles` that every member holds.
pub open spec fn first_everyone(roles: Seq<RoleInfo>) -> Option<u64>
    decreases roles.len(),
{
    if roles.len() == 0 {
        None
    } else if is_everyone(roles[0]) {
        Some(roles[0].id)
    } else {
        first_everyone(roles.drop_first())
    }
}

/// The overwrite that hides a channel from `principal`.
pub open spec fn hiding(principal: Principal) -> PermissionOverwrite {
    PermissionOverwrite { principal, allow_read: false, deny_read: true }
}

/// The overwrite that shows a channel to `principal`.
pub open spec fn showing(principal: Principal) -> PermissionOverwrite {
    PermissionOverwrite { principal, allow_read: true, deny_read: false }
}

/// Whether `name` reads `expected`.
pub fn name_is(name: &String, expected: &str) -> (r: bool)
    ensures
        r == (name@ == expected@),
{
    let expected = String::from_str(expected);
    *name == expected
}

/// Whether `channel` is the one in which announcements are posted.
pub fn is_announcement_channel(channel: &ChannelInfo) -> (r: bool)
    ensures
        r == (channel.name@ == ANNOUNCEMENT_CHANNEL@),
{
    name_is(&channel.name, ANNOUNCEMENT_CHANNEL)
}

/// Whether a message written by `author` is one of this bot's own, `own_id`
/// being the bot's user id.
pub fn is_announcement_message(author: u64, own_id: u64) -> (r: bool)
    ensures
        r == (author == own_id),
{
    author == own_id
}

/// The principal of a role.
pub fn from_role_id(role_id: u64) -> (r: Principal)
    ensures
        r == Principal::Role(role_id),
{
    Principal::Role(role_id)
}

/// The principal of a single member.
pub fn from_user_id(user_id: u64) -> (r: Principal)
    ensures
        r == Principal::Member(user_id),
{
    Principal::Member(user_id)
}

/// The overwrite that denies `to_hide_from` reading a channel.
pub fn hide_channel(to_hide_from: Principal) -> (r: PermissionOverwrite)
    ensures
        r == hiding(to_hide_from),
{
    PermissionOverwrite { principal: to_hide_from, allow_read: false, deny_read: true }
}

/// The overwrite that allows `to_unhide_from` reading a channel.
pub fn unhide_channel(to_unhide_from: Principal) -> (r: PermissionOverwrite)
    ensures
        r == showing(to_unhide_from),
{
    PermissionOverwrite { principal: to_unhide_from, allow_read: true, deny_read: false }
}

/// Id of the first channel named `name`.
pub fn find_channel(channels: &Vec<ChannelInfo>, name: &str) -> (r: Option<u64>)
    ensures
        r == first_named(channels@, name@),
{
    let mut i: usize = 0;
    assert(channels@.skip(0) =~= channels@);
    while i < channels.len()
        invariant
            i <= channels@.len(),
            first_named(channels@, name@) == first_named(channels@.skip(i as int), name@),
        decreases channels.len() - i,
    {
        assert(channels@.skip(i as int).drop_first() =~= channels@.skip(i + 1));
        if name_is(&channels[i].name, name) {
            return Some(channels[i].id);
        }
        i += 1;
    }
    None
}

/// Id of the role that every member of the guild holds, out of its roles.
pub fn everyone_role(roles: &Vec<RoleInfo>) -> (r: Result<u64, BotError>)
    ensures
        first_everyone(roles@) is Some ==> r == Ok::<u64, BotError>(first_everyone(roles@)->0),
        first_everyone(roles@) is None ==> r == Err::<u64, BotError>(
            BotError::NotFound(Missing::EveryoneRole),
        ),
{
    let mut i: usize = 0;
    assert(roles@.skip(0) =~= roles@);
    while i < roles.len()
        invariant
            i <= roles@.len(),
            first_everyone(roles@) == first_everyone(roles@.skip(i as int)),
        decreases roles.len() - i,
    {
        assert(roles@.skip(i as int).drop_first() =~= roles@.skip(i + 1));
        if roles[i].position <= 0 && name_is(&roles[i].name, EVERYONE_ROLE) {
            return Ok(roles[i].id);
        }
        i += 1;
    }
    Err(BotError::NotFound(Missing::EveryoneRole))
}

} // verus!
