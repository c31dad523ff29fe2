use vstd::prelude::*;

use crate::guild::{
    everyone_role, find_channel, first_everyone, first_named, from_role_id, hide_channel, hiding,
    name_is, BotError, ChannelInfo, Grant, Missing, PermissionOverwrite, Principal, RoleInfo,
    ANNOUNCEMENT_CHANNEL, CHECKMARK, COMMANDS_CHANNEL,
};
use crate::release::{announcement_text, channel_name_of, Puzzle};
use crate::text::{decimal, push_char, push_decimal};
use vstd::string::StringExecFns;

verus! {

/// What announcing a puzzle in one guild takes, once the guild's channels have
/// been checked: create the companion channel `channel_name`, hide it from
/// every member, then post `notice` in `notice_channel` with the `reaction`
/// offered as a quick reaction.
#[derive(Debug)]
pub struct AnnouncementPlan {
    pub notice_channel: u64,
    pub channel_name: String,
    pub notice: String,
    pub reaction: char,
}

/// Plans the announcement of `puzzle` in a guild whose channels are `channels`.
/// The announcement channel is looked up first, so that a guild without one
/// gets no channel created; a guild that already has the companion channel is
/// left alone, so that a puzzle is announced at most once.
pub fn plan_announcement(puzzle: Puzzle, channels: &Vec<ChannelInfo>) -> (r: Result<
    AnnouncementPlan,
    BotError,
>)
    requires
        puzzle.wf(),
    ensures
        first_named(channels@, ANNOUNCEMENT_CHANNEL@) is None ==> r == Err::<
            AnnouncementPlan,
            BotError,
        >(BotError::NotFound(Missing::AnnouncementChannel)),
        first_named(channels@, ANNOUNCEMENT_CHANNEL@) is Some && first_named(
            channels@,
            channel_name_of(puzzle.days as int),
        ) is Some ==> r == Err::<AnnouncementPlan, BotError>(BotError::Conflict),
        first_named(channels@, ANNOUNCEMENT_CHANNEL@) is Some && first_named(
            channels@,
            channel_name_of(puzzle.days as int),
        ) is None ==> r is Ok,
        r is Ok ==> r->Ok_0.notice_channel == first_named(channels@, ANNOUNCEMENT_CHANNEL@)->0
            && r->Ok_0.channel_name@ == channel_name_of(puzzle.days as int) && r->Ok_0.notice@
            == announcement_text(puzzle.days as int) && r->Ok_0.reaction == CHECKMARK,
{
    let notice_channel = match find_channel(channels, ANNOUNCEMENT_CHANNEL) {
        Some(id) => id,
        None => {
            return Err(BotError::NotFound(Missing::AnnouncementChannel));
        },
    };
    let channel_name = puzzle.to_channel_name();
    if find_channel(channels, channel_name.as_str()).is_some() {
        return Err(BotError::Conflict);
    }
    Ok(
        AnnouncementPlan {
            notice_channel,
            channel_name,
            notice: puzzle.to_announcement(),
            reaction: CHECKMARK,
        },
    )
}

/// Word that, after a mention of the bot, asks for an announcement.
pub const ANNOUNCE_COMMAND: &'static str = " announce";

/// The ways a message can mention the user `id`: "<@id>", and "<@!id>" as
/// written for a nickname.
pub open spec fn mentions_of(id: u64) -> (Seq<char>, Seq<char>) {
    (seq!['<', '@'] + decimal(id as nat) + seq!['>'], seq!['<', '@', '!'] + decimal(id as nat) + seq![
        '>',
    ])
}

/// Whether `content` is the command that asks the bot `own_id` for an
/// announcement: a mention of the bot followed by " announce".
pub open spec fn is_trigger(content: Seq<char>, own_id: u64) -> bool {
    content == mentions_of(own_id).0 + ANNOUNCE_COMMAND@ || content == mentions_of(own_id).1
        + ANNOUNCE_COMMAND@
}

/// Whether `content` is the command that asks the bot `own_id` for an
/// announcement.
pub fn is_trigger_phrase(content: &String, own_id: u64) -> (r: bool)
    ensures
        r == is_trigger(content@, own_id),
{
    let mut plain = String::new();
    push_char(&mut plain, '<');
    push_char(&mut plain, '@');
    let mut nick = String::new();
    push_char(&mut nick, '<');
    push_char(&mut nick, '@');
    push_char(&mut nick, '!');
    push_decimal(&mut plain, own_id);
    push_decimal(&mut nick, own_id);
    push_char(&mut plain, '>');
    push_char(&mut nick, '>');
    plain.append(ANNOUNCE_COMMAND);
    nick.append(ANNOUNCE_COMMAND);
    assert(plain@ =~= mentions_of(own_id).0 + ANNOUNCE_COMMAND@);
    assert(nick@ =~= mentions_of(own_id).1 + ANNOUNCE_COMMAND@);
    *content == plain || *content == nick
}

/// Whether a message asks for an announcement: the command, written by
/// someone other than this bot (`own_id`) in the channel for commands.
pub fn is_announce_request(author: u64, own_id: u64, channel: &ChannelInfo, content: &String) -> (r:
    bool)
    ensures
        r == (author != own_id && channel.name@ == COMMANDS_CHANNEL@ && is_trigger(content@, own_id)),
{
    author != own_id && name_is(&channel.name, COMMANDS_CHANNEL) && is_trigger_phrase(content, own_id)
}

/// Where the announcement of a puzzle in one guild stands.
#[derive(Clone, Copy, Debug)]
pub enum AnnounceState {
    /// Nothing has been done yet.
    Start,
    /// The guild's channels are being listed.
    AwaitChannels,
    /// The companion channel is being created; the notice goes to
    /// `notice_channel`.
    AwaitCreated { notice_channel: u64 },
    /// The companion channel `channel` exists; the guild's roles are being
    /// listed to find the role that every member holds.
    AwaitRoles { notice_channel: u64, channel: u64 },
    /// The companion channel is being hidden from every member.
    AwaitHidden { notice_channel: u64 },
    /// The notice is being posted.
    AwaitPosted,
    /// The announcement is over, made or failed.
    Done(Result<(), BotError>),
}

/// What the platform reported, in answer to the last action or, for
/// `Begin`, to start with.
#[derive(Debug)]
pub enum AnnounceEvent {
    /// Start the announcement.
    Begin,
    /// The channels of the guild.
    Channels(Vec<ChannelInfo>),
    /// The companion channel was created with this id.
    Created(u64),
    /// The roles of the guild.
    Roles(Vec<RoleInfo>),
    /// The overwrite was applied.
    Applied,
    /// The notice was posted.
    Posted,
    /// The request of the last action failed.
    RequestFailed(BotError),
}

/// What to do next in announcing a puzzle.
#[derive(Debug)]
pub enum AnnounceAction {
    /// List the channels of the guild.
    ListChannels,
    /// Create a text channel of this name.
    CreateChannel(String),
    /// List the roles of the guild.
    ListRoles,
    /// Apply the overwrite of the grant.
    Apply(Grant),
    /// Post `notice` in `channel`, offering `reaction` as a quick reaction.
    Post { channel: u64, notice: String, reaction: char },
    /// Stop, with the result.
    Stop(Result<(), BotError>),
}

/// An `AnnounceAction` with its texts as sequences of characters.
pub enum AnnounceStep {
    ListChannels,
    CreateChannel(Seq<char>),
    ListRoles,
    Apply(Grant),
    Post { channel: u64, notice: Seq<char>, reaction: char },
    Stop(Result<(), BotError>),
}

impl View for AnnounceAction {
    type V = AnnounceStep;

    open spec fn view(&self) -> AnnounceStep {
        match self {
            AnnounceAction::ListChannels => AnnounceStep::ListChannels,
            AnnounceAction::CreateChannel(name) => AnnounceStep::CreateChannel(name@),
            AnnounceAction::ListRoles => AnnounceStep::ListRoles,
            AnnounceAction::Apply(grant) => AnnounceStep::Apply(*grant),
            AnnounceAction::Post { channel, notice, reaction } => AnnounceStep::Post {
                channel: *channel,
                notice: notice@,
                reaction: *reaction,
            },
            AnnounceAction::Stop(result) => AnnounceStep::Stop(*result),
        }
    }
}

/// The state after an event in announcing the puzzle of `day`, and the action
/// that goes with it. The four steps come in a fixed order (find the
/// announcement channel, create the companion channel, hide it, post the
/// notice) and the first failure ends the announcement.
pub open spec fn announce_step(day: int, state: AnnounceState, event: AnnounceEvent) -> (
    AnnounceState,
    AnnounceStep,
) {
    let stop = |r: Result<(), BotError>| (AnnounceState::Done(r), AnnounceStep::Stop(r));
    match (state, event) {
        (AnnounceState::Start, AnnounceEvent::Begin) => (
            AnnounceState::AwaitChannels,
            AnnounceStep::ListChannels,
        ),
        (AnnounceState::AwaitChannels, AnnounceEvent::Channels(channels)) => {
            match first_named(channels@, ANNOUNCEMENT_CHANNEL@) {
                None => stop(Err(BotError::NotFound(Missing::AnnouncementChannel))),
                Some(notice_channel) => if first_named(channels@, channel_name_of(day)) is Some {
                    stop(Err(BotError::Conflict))
                } else {
                    (
                        AnnounceState::AwaitCreated { notice_channel },
                        AnnounceStep::CreateChannel(channel_name_of(day)),
                    )
                },
            }
        },
        (AnnounceState::AwaitCreated { notice_channel }, AnnounceEvent::Created(channel)) => (
            AnnounceState::AwaitRoles { notice_channel, channel },
            AnnounceStep::ListRoles,
        ),
        (AnnounceState::AwaitRoles { notice_channel, channel }, AnnounceEvent::Roles(roles)) => {
            match first_everyone(roles@) {
                None => stop(Err(BotError::NotFound(Missing::EveryoneRole))),
                Some(everyone) => (
                    AnnounceState::AwaitHidden { notice_channel },
                    AnnounceStep::Apply(
                        Grant { channel, overwrite: hiding(Principal::Role(everyone)) },
                    ),
                ),
            }
        },
        (AnnounceState::AwaitHidden { notice_channel }, AnnounceEvent::Applied) => (
            AnnounceState::AwaitPosted,
            AnnounceStep::Post {
                channel: notice_channel,
                notice: announcement_text(day),
                reaction: CHECKMARK,
            },
        ),
        (AnnounceState::AwaitPosted, AnnounceEvent::Posted) => stop(Ok(())),
        (AnnounceState::Done(r), _) => (AnnounceState::Done(r), AnnounceStep::Stop(r)),
        (_, AnnounceEvent::RequestFailed(e)) => stop(Err(e)),
        _ => stop(Err(BotError::Api)),
    }
}

/// Announces one puzzle in one guild, one event at a time.
#[derive(Debug)]
pub struct Announcer {
    pub puzzle: Puzzle,
    pub state: AnnounceState,
}

impl Announcer {
    /// An announcement of `puzzle` that has not begun.
    pub fn new(puzzle: Puzzle) -> (r: Announcer)
        ensures
            r.puzzle == puzzle,
            r.state == AnnounceState::Start,
    {
        Announcer { puzzle, state: AnnounceState::Start }
    }

    /// Takes in an event and says what to do next.
    pub fn on_event(&mut self, event: AnnounceEvent) -> (r: AnnounceAction)
        requires
            old(self).puzzle.wf(),
        ensures
            final(self).puzzle == old(self).puzzle,
            (final(self).state, r@) == announce_step(old(self).puzzle.days as int, old(self).state, event),
    {
        let (next, action) = match (self.state, event) {
            (AnnounceState::Start, AnnounceEvent::Begin) => (
                AnnounceState::AwaitChannels,
                AnnounceAction::ListChannels,
            ),
            (AnnounceState::AwaitChannels, AnnounceEvent::Channels(channels)) => {
                match plan_announcement(self.puzzle, &channels) {
                    Ok(plan) => (
                        AnnounceState::AwaitCreated { notice_channel: plan.notice_channel },
                        AnnounceAction::CreateChannel(plan.channel_name),
                    ),
                    Err(e) => (AnnounceState::Done(Err(e)), AnnounceAction::Stop(Err(e))),
                }
            },
            (AnnounceState::AwaitCreated { notice_channel }, AnnounceEvent::Created(channel)) => (
                AnnounceState::AwaitRoles { notice_channel, channel },
                AnnounceAction::ListRoles,
            ),
            (AnnounceState::AwaitRoles { notice_channel, channel }, AnnounceEvent::Roles(roles)) => {
                match everyone_role(&roles) {
                    Ok(everyone) => (
                        AnnounceState::AwaitHidden { notice_channel },
                        AnnounceAction::Apply(
                            Grant { channel, overwrite: hide_channel(from_role_id(everyone)) },
                        ),
                    ),
                    Err(e) => (AnnounceState::Done(Err(e)), AnnounceAction::Stop(Err(e))),
                }
            },
            (AnnounceState::AwaitHidden { notice_channel }, AnnounceEvent::Applied) => (
                AnnounceState::AwaitPosted,
                AnnounceAction::Post {
                    channel: notice_channel,
                    notice: self.puzzle.to_announcement(),
                    reaction: CHECKMARK,
                },
            ),
            (AnnounceState::AwaitPosted, AnnounceEvent::Posted) => (
                AnnounceState::Done(Ok(())),
                AnnounceAction::Stop(Ok(())),
            ),
            (AnnounceState::Done(r), _) => (AnnounceState::Done(r), AnnounceAction::Stop(r)),
            (_, AnnounceEvent::RequestFailed(e)) => (
                AnnounceState::Done(Err(e)),
                AnnounceAction::Stop(Err(e)),
            ),
            _ => (AnnounceState::Done(Err(BotError::Api)), AnnounceAction::Stop(Err(BotError::Api))),
        };
        self.state = next;
        action
    }
}

/// The state after a run of events in announcing the puzzle of `day`, and the
/// actions taken along it, in order.
pub open spec fn announce_run(day: int, state: AnnounceState, events: Seq<AnnounceEvent>) -> (
    AnnounceState,
    Seq<AnnounceStep>,
)
    decreases events.len(),
{
    if events.len() == 0 {
        (state, Seq::empty())
    } else {
        let (next, action) = announce_step(day, state, events[0]);
        let (last, rest) = announce_run(day, next, events.drop_first());
        (last, seq![action] + rest)
    }
}

/// Once an announcement is over, whatever comes after changes nothing and
/// leads only to stopping with the same result.
pub proof fn lemma_announce_done_is_final(
    day: int,
    result: Result<(), BotError>,
    events: Seq<AnnounceEvent>,
)
    ensures
        announce_run(day, AnnounceState::Done(result), events).0 == AnnounceState::Done(result),
        announce_run(day, AnnounceState::Done(result), events).1.len() == events.len(),
        forall|i: int|
            0 <= i < events.len() ==> #[trigger] announce_run(
                day,
                AnnounceState::Done(result),
                events,
            ).1[i] == AnnounceStep::Stop(result),
    decreases events.len(),
{
    if events.len() > 0 {
        lemma_announce_done_is_final(day, result, events.drop_first());
    }
}

/// An announcement that stops on the guild's channels makes no other request:
/// after listing the channels, every action is the same stop.
proof fn lemma_stops_on_channels(
    day: int,
    channels: Vec<ChannelInfo>,
    later: Seq<AnnounceEvent>,
    result: Result<(), BotError>,
)
    requires
        announce_step(day, AnnounceState::AwaitChannels, AnnounceEvent::Channels(channels)) == (
            AnnounceState::Done(result),
            AnnounceStep::Stop(result),
        ),
    ensures
        ({
            let events = seq![AnnounceEvent::Begin, AnnounceEvent::Channels(channels)] + later;
            let run = announce_run(day, AnnounceState::Start, events);
            &&& run.0 == AnnounceState::Done(result)
            &&& run.1.len() == events.len()
            &&& run.1[0] == AnnounceStep::ListChannels
            &&& forall|i: int| 1 <= i < events.len() ==> #[trigger] run.1[i] == AnnounceStep::Stop(result)
        }),
{
    let events = seq![AnnounceEvent::Begin, AnnounceEvent::Channels(channels)] + later;
    let e1 = events.drop_first();
    let e2 = e1.drop_first();
    assert(e2 =~= later);
    lemma_announce_done_is_final(day, result, later);
    let run2 = announce_run(day, AnnounceState::Done(result), later);
    let run1 = announce_run(day, AnnounceState::AwaitChannels, e1);
    assert(run1.1 =~= seq![AnnounceStep::Stop(result)] + run2.1);
    let run = announce_run(day, AnnounceState::Start, events);
    assert(run.1 =~= seq![AnnounceStep::ListChannels] + run1.1);
    assert forall|i: int| 1 <= i < events.len() implies #[trigger] run.1[i] == AnnounceStep::Stop(
        result,
    ) by {
        if i >= 2 {
            assert(run.1[i] == run2.1[i - 2]);
        }
    }
}

/// In a guild without an announcement channel, the announcement fails with
/// `NotFound` as soon as the channels are known, and no channel is ever created
/// and no notice posted, whatever follows.
pub proof fn lemma_missing_announcement_channel(
    day: int,
    channels: Vec<ChannelInfo>,
    later: Seq<AnnounceEvent>,
)
    requires
        first_named(channels@, ANNOUNCEMENT_CHANNEL@) is None,
    ensures
        ({
            let events = seq![AnnounceEvent::Begin, AnnounceEvent::Channels(channels)] + later;
            let run = announce_run(day, AnnounceState::Start, events);
            let failed = Err::<(), BotError>(BotError::NotFound(Missing::AnnouncementChannel));
            &&& run.0 == AnnounceState::Done(failed)
            &&& run.1[0] == AnnounceStep::ListChannels
            &&& forall|i: int| 1 <= i < events.len() ==> #[trigger] run.1[i] == AnnounceStep::Stop(failed)
        }),
{
    lemma_stops_on_channels(
        day,
        channels,
        later,
        Err::<(), BotError>(BotError::NotFound(Missing::AnnouncementChannel)),
    );
}

/// In a guild that already has the puzzle's companion channel, the
/// announcement fails with `Conflict` as soon as the channels are known, and
/// the notice is never posted again, whatever follows.
pub proof fn lemma_existing_companion_channel(
    day: int,
    channels: Vec<ChannelInfo>,
    later: Seq<AnnounceEvent>,
)
    requires
        first_named(channels@, ANNOUNCEMENT_CHANNEL@) is Some,
        first_named(channels@, channel_name_of(day)) is Some,
    ensures
        ({
            let events = seq![AnnounceEvent::Begin, AnnounceEvent::Channels(channels)] + later;
            let run = announce_run(day, AnnounceState::Start, events);
            &&& run.0 == AnnounceState::Done(Err::<(), BotError>(BotError::Conflict))
            &&& run.1[0] == AnnounceStep::ListChannels
            &&& forall|i: int|
                1 <= i < events.len() ==> #[trigger] run.1[i] == AnnounceStep::Stop(
                    Err::<(), BotError>(BotError::Conflict),
                )
        }),
{
    lemma_stops_on_channels(day, channels, later, Err::<(), BotError>(BotError::Conflict));
}

/// Where every request succeeds, the announcement creates the companion
/// channel, hides it from the role that every member holds, posts the notice
/// with the checkmark in the announcement channel, and ends announced, in that
/// order.
pub proof fn lemma_announcement_succeeds(
    day: int,
    channels: Vec<ChannelInfo>,
    created: u64,
    roles: Vec<RoleInfo>,
)
    requires
        first_named(channels@, ANNOUNCEMENT_CHANNEL@) is Some,
        first_named(channels@, channel_name_of(day)) is None,
        first_everyone(roles@) is Some,
    ensures
        announce_run(
            day,
            AnnounceState::Start,
            seq![
                AnnounceEvent::Begin,
                AnnounceEvent::Channels(channels),
                AnnounceEvent::Created(created),
                AnnounceEvent::Roles(roles),
                AnnounceEvent::Applied,
                AnnounceEvent::Posted,
            ],
        ) == (
            AnnounceState::Done(Ok::<(), BotError>(())),
            seq![
                AnnounceStep::ListChannels,
                AnnounceStep::CreateChannel(channel_name_of(day)),
                AnnounceStep::ListRoles,
                AnnounceStep::Apply(
                    Grant {
                        channel: created,
                        overwrite: PermissionOverwrite {
                            principal: Principal::Role(first_everyone(roles@)->0),
                            allow_read: false,
                            deny_read: true,
                        },
                    },
                ),
                AnnounceStep::Post {
                    channel: first_named(channels@, ANNOUNCEMENT_CHANNEL@)->0,
                    notice: announcement_text(day),
                    reaction: CHECKMARK,
                },
                AnnounceStep::Stop(Ok::<(), BotError>(())),
            ],
        ),
{
    let events = seq![
        AnnounceEvent::Begin,
        AnnounceEvent::Channels(channels),
        AnnounceEvent::Created(created),
        AnnounceEvent::Roles(roles),
        AnnounceEvent::Applied,
        AnnounceEvent::Posted,
    ];
    let s1 = announce_step(day, AnnounceState::Start, events[0]);
    let s2 = announce_step(day, s1.0, events[1]);
    let s3 = announce_step(day, s2.0, events[2]);
    let s4 = announce_step(day, s3.0, events[3]);
    let s5 = announce_step(day, s4.0, events[4]);
    let s6 = announce_step(day, s5.0, events[5]);
    let e1 = events.drop_first();
    let e2 = e1.drop_first();
    let e3 = e2.drop_first();
    let e4 = e3.drop_first();
    let e5 = e4.drop_first();
    let e6 = e5.drop_first();
    assert(e6.len() == 0);
    assert(announce_run(day, s6.0, e6) == (s6.0, Seq::<AnnounceStep>::empty()));
    assert(announce_run(day, s5.0, e5) == (s6.0, seq![s6.1]));
    assert(announce_run(day, s4.0, e4) == (s6.0, seq![s5.1, s6.1]));
    assert(announce_run(day, s3.0, e3) == (s6.0, seq![s4.1, s5.1, s6.1]));
    assert(announce_run(day, s2.0, e2) == (s6.0, seq![s3.1, s4.1, s5.1, s6.1]));
    assert(announce_run(day, s1.0, e1) == (s6.0, seq![s2.1, s3.1, s4.1, s5.1, s6.1]));
    assert(announce_run(day, AnnounceState::Start, events) == (
        s6.0,
        seq![s1.1, s2.1, s3.1, s4.1, s5.1, s6.1],
    ));
}

} // verus!
