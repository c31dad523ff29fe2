use vstd::prelude::*;

use crate::guild::{
    find_channel, first_named, from_user_id, is_announcement_channel, is_announcement_message,
    showing, unhide_channel, BotError, ChannelInfo, Grant, Missing, PermissionOverwrite, Principal,
    ANNOUNCEMENT_CHANNEL, CHECKMARK,
};
use crate::release::{channel_name_of, current_day, Puzzle};

verus! {

/// How handling a reaction ended.
#[derive(Clone, Copy, Debug, PartialEq, Eq, Structural)]
pub enum GateOutcome {
    /// The member was given read access to the companion channel.
    Unlocked,
    /// The reaction does not acknowledge an announcement.
    Ignored,
    /// The reaction acknowledges an announcement, but unlocking failed.
    Failed(BotError),
}

/// Whether a reaction may acknowledge an announcement at all: it was added,
/// not removed, and it is the checkmark.
pub open spec fn accepts_reaction(is_add: bool, symbol: char) -> bool {
    is_add && symbol == CHECKMARK
}

/// Whether the reacted-to message is an announcement: it lies in a guild
/// channel (`channel` is `None` for any other channel) named like the
/// announcement channel, and it was written by this bot (`own_id`).
pub open spec fn accepts_message(channel: Option<ChannelInfo>, author: u64, own_id: u64) -> bool {
    channel is Some && channel->0.name@ == ANNOUNCEMENT_CHANNEL@ && author == own_id
}

/// What unlocking the puzzle of `day` for `member` comes to in a guild whose
/// channels are `channels`.
pub open spec fn unlock_of(day: int, member: u64, channels: Seq<ChannelInfo>) -> Result<
    Grant,
    BotError,
> {
    match first_named(channels, channel_name_of(day)) {
        Some(id) => Ok(Grant { channel: id, overwrite: showing(Principal::Member(member)) }),
        None => Err(BotError::NotFound(Missing::CompanionChannel)),
    }
}

/// First check on a reaction, made before anything is fetched: a removed
/// reaction, or any symbol but the checkmark, is ignored.
pub fn screen_reaction(is_add: bool, symbol: char) -> (r: bool)
    ensures
        r == accepts_reaction(is_add, symbol),
        !is_add ==> !r,
{
    is_add && symbol == CHECKMARK
}

/// Second check on a reaction, once its channel and message are known.
pub fn screen_message(channel: &Option<ChannelInfo>, author: u64, own_id: u64) -> (r: bool)
    ensures
        r == accepts_message(*channel, author, own_id),
{
    match channel {
        Some(c) => is_announcement_channel(c) && is_announcement_message(author, own_id),
        None => false,
    }
}

/// Id of the companion channel of `puzzle` among the guild's `channels`.
pub fn find_puzzle_channel(puzzle: Puzzle, channels: &Vec<ChannelInfo>) -> (r: Option<u64>)
    requires
        puzzle.wf(),
    ensures
        r == first_named(channels@, channel_name_of(puzzle.days as int)),
{
    let name = puzzle.to_channel_name();
    find_channel(channels, name.as_str())
}

/// The overwrite that gives `member` read access to the companion channel of
/// `puzzle`, found by name among the guild's `channels`.
pub fn unlock_in(puzzle: Puzzle, member: u64, channels: &Vec<ChannelInfo>) -> (r: Result<
    Grant,
    BotError,
>)
    requires
        puzzle.wf(),
    ensures
        r == unlock_of(puzzle.days as int, member, channels@),
{
    match find_puzzle_channel(puzzle, channels) {
        Some(id) => Ok(Grant { channel: id, overwrite: unhide_channel(from_user_id(member)) }),
        None => Err(BotError::NotFound(Missing::CompanionChannel)),
    }
}

/// The overwrite that gives `member` read access to the companion channel of
/// the puzzle announced by a message posted at `posted_at` (Unix nanoseconds).
/// The puzzle is the one current when the message was posted, so that an
/// announcement can be acknowledged long after it was made.
pub fn unlock_member(member: u64, posted_at: i64, channels: &Vec<ChannelInfo>) -> (r: Result<
    Grant,
    BotError,
>)
    ensures
        r == unlock_of(current_day(posted_at as int), member, channels@),
{
    unlock_in(Puzzle::from_announcement(posted_at), member, channels)
}

/// Where the handling of one reaction stands.
#[derive(Debug)]
pub enum GateState {
    /// Nothing is known of the reaction yet.
    Start,
    /// The reaction passed the first check; its channel is being fetched.
    AwaitChannel { member: u64 },
    /// The reaction's channel is known (`None`: not a guild channel); the
    /// reacted-to message is being fetched.
    AwaitMessage { member: u64, channel: Option<ChannelInfo> },
    /// The message is an announcement posted at `posted_at`; the channels of
    /// its guild are being listed.
    AwaitChannels { member: u64, posted_at: i64 },
    /// The overwrite that unlocks the channel is being applied.
    AwaitApply,
    /// Handling is over.
    Done(GateOutcome),
}

/// What the platform reported, in answer to the last action or, for
/// `Reaction`, to start with.
#[derive(Debug)]
pub enum GateEvent {
    /// A reaction was added (`is_add`) or removed by `member`.
    Reaction { is_add: bool, symbol: char, member: u64 },
    /// The reaction's channel, `None` where it is not a guild channel.
    Channel(Option<ChannelInfo>),
    /// The reacted-to message: its author and when it was posted (Unix
    /// nanoseconds).
    Message { author: u64, posted_at: i64 },
    /// The channels of the guild.
    Channels(Vec<ChannelInfo>),
    /// The overwrite was applied.
    Applied,
    /// The request of the last action failed.
    RequestFailed(BotError),
}

/// What to do next.
#[derive(Clone, Copy, Debug, PartialEq, Eq, Structural)]
pub enum GateAction {
    /// Fetch the channel that the reaction lies in.
    FetchChannel,
    /// Fetch the message that was reacted to.
    FetchMessage,
    /// List the channels of that channel's guild.
    ListChannels,
    /// Apply the overwrite of the grant.
    Apply(Grant),
    /// Stop, with the outcome.
    Stop(GateOutcome),
}

/// The state after an event, and the action that goes with it.
pub open spec fn gate_step(state: GateState, own_id: u64, event: GateEvent) -> (GateState, GateAction) {
    let stop = |o: GateOutcome| (GateState::Done(o), GateAction::Stop(o));
    match (state, event) {
        (GateState::Start, GateEvent::Reaction { is_add, symbol, member }) => {
            if accepts_reaction(is_add, symbol) {
                (GateState::AwaitChannel { member }, GateAction::FetchChannel)
            } else {
                stop(GateOutcome::Ignored)
            }
        },
        (GateState::AwaitChannel { member }, GateEvent::Channel(channel)) => {
            (GateState::AwaitMessage { member, channel }, GateAction::FetchMessage)
        },
        (GateState::AwaitMessage { member, channel }, GateEvent::Message { author, posted_at }) => {
            if accepts_message(channel, author, own_id) {
                (GateState::AwaitChannels { member, posted_at }, GateAction::ListChannels)
            } else {
                stop(GateOutcome::Ignored)
            }
        },
        (GateState::AwaitChannels { member, posted_at }, GateEvent::Channels(channels)) => {
            match unlock_of(current_day(posted_at as int), member, channels@) {
                Ok(grant) => (GateState::AwaitApply, GateAction::Apply(grant)),
                Err(e) => stop(GateOutcome::Failed(e)),
            }
        },
        (GateState::AwaitApply, GateEvent::Applied) => stop(GateOutcome::Unlocked),
        (GateState::Done(o), _) => (GateState::Done(o), GateAction::Stop(o)),
        (_, GateEvent::RequestFailed(e)) => stop(GateOutcome::Failed(e)),
        _ => stop(GateOutcome::Ignored),
    }
}

/// Handles one reaction, one event at a time: the checks are made as soon as
/// what they need is known, so that a reaction that fails one causes no
/// further request.
#[derive(Debug)]
pub struct UnlockGate {
    /// The bot's own user id.
    pub own_id: u64,
    pub state: GateState,
}

impl UnlockGate {
    /// A gate waiting for a reaction.
    pub fn new(own_id: u64) -> (r: UnlockGate)
        ensures
            r.own_id == own_id,
            r.state == GateState::Start,
    {
        UnlockGate { own_id, state: GateState::Start }
    }

    /// Takes in an event and says what to do next.
    pub fn on_event(&mut self, event: GateEvent) -> (r: GateAction)
        ensures
            final(self).own_id == old(self).own_id,
            (final(self).state, r) == gate_step(old(self).state, old(self).own_id, event),
    {
        let mut state = GateState::Start;
        std::mem::swap(&mut state, &mut self.state);
        let (next, action) = match (state, event) {
            (GateState::Start, GateEvent::Reaction { is_add, symbol, member }) => {
                if screen_reaction(is_add, symbol) {
                    (GateState::AwaitChannel { member }, GateAction::FetchChannel)
                } else {
                    (GateState::Done(GateOutcome::Ignored), GateAction::Stop(GateOutcome::Ignored))
                }
            },
            (GateState::AwaitChannel { member }, GateEvent::Channel(channel)) => {
                (GateState::AwaitMessage { member, channel }, GateAction::FetchMessage)
            },
            (GateState::AwaitMessage { member, channel }, GateEvent::Message { author, posted_at }) => {
                if screen_message(&channel, author, self.own_id) {
                    (GateState::AwaitChannels { member, posted_at }, GateAction::ListChannels)
                } else {
                    (GateState::Done(GateOutcome::Ignored), GateAction::Stop(GateOutcome::Ignored))
                }
            },
            (GateState::AwaitChannels { member, posted_at }, GateEvent::Channels(channels)) => {
                match unlock_member(member, posted_at, &channels) {
                    Ok(grant) => (GateState::AwaitApply, GateAction::Apply(grant)),
                    Err(e) => (GateState::Done(GateOutcome::Failed(e)), GateAction::Stop(GateOutcome::Failed(e))),
                }
            },
            (GateState::AwaitApply, GateEvent::Applied) => {
                (GateState::Done(GateOutcome::Unlocked), GateAction::Stop(GateOutcome::Unlocked))
            },
            (GateState::Done(o), _) => (GateState::Done(o), GateAction::Stop(o)),
            (_, GateEvent::RequestFailed(e)) => {
                (GateState::Done(GateOutcome::Failed(e)), GateAction::Stop(GateOutcome::Failed(e)))
            },
            _ => (GateState::Done(GateOutcome::Ignored), GateAction::Stop(GateOutcome::Ignored)),
        };
        self.state = next;
        action
    }
}

/// The state after a run of events, and the actions taken along it, in order.
pub open spec fn gate_run(state: GateState, own_id: u64, events: Seq<GateEvent>) -> (
    GateState,
    Seq<GateAction>,
)
    decreases events.len(),
{
    if events.len() == 0 {
        (state, Seq::empty())
    } else {
        let (next, action) = gate_step(state, own_id, events[0]);
        let (last, rest) = gate_run(next, own_id, events.drop_first());
        (last, seq![action] + rest)
    }
}

/// Once handling is over, whatever comes after changes nothing and asks for
/// only to stop with the same outcome.
pub proof fn lemma_done_is_final(outcome: GateOutcome, own_id: u64, events: Seq<GateEvent>)
    ensures
        gate_run(GateState::Done(outcome), own_id, events).0 == GateState::Done(outcome),
        gate_run(GateState::Done(outcome), own_id, events).1.len() == events.len(),
        forall|i: int|
            0 <= i < events.len() ==> #[trigger] gate_run(GateState::Done(outcome), own_id, events).1[i]
                == GateAction::Stop(outcome),
    decreases events.len(),
{
    if events.len() > 0 {
        lemma_done_is_final(outcome, own_id, events.drop_first());
    }
}

/// Removal of a reaction leads to `Ignored` and to nothing else, whatever
/// comes after it.
pub proof fn lemma_removal_ignored(own_id: u64, symbol: char, member: u64, later: Seq<GateEvent>)
    ensures
        ({
            let events = seq![GateEvent::Reaction { is_add: false, symbol, member }] + later;
            &&& gate_run(GateState::Start, own_id, events).0 == GateState::Done(GateOutcome::Ignored)
            &&& forall|i: int|
                0 <= i < events.len() ==> #[trigger] gate_run(GateState::Start, own_id, events).1[i]
                    == GateAction::Stop(GateOutcome::Ignored)
        }),
{
    let events = seq![GateEvent::Reaction { is_add: false, symbol, member }] + later;
    assert(events.drop_first() =~= later);
    lemma_done_is_final(GateOutcome::Ignored, own_id, later);
    let run = gate_run(GateState::Start, own_id, events);
    assert forall|i: int| 0 <= i < events.len() implies #[trigger] run.1[i] == GateAction::Stop(
        GateOutcome::Ignored,
    ) by {
        if i > 0 {
            assert(run.1[i] == gate_run(GateState::Done(GateOutcome::Ignored), own_id, later).1[i - 1]);
        }
    }
}

/// An added checkmark, on a message of this bot in the announcement channel,
/// for a puzzle whose companion channel the guild has, leads to exactly one
/// overwrite, read access to that channel for the reacting member alone, and
/// ends unlocked.
pub proof fn lemma_acknowledgement_unlocks(
    own_id: u64,
    member: u64,
    channel: ChannelInfo,
    posted_at: i64,
    channels: Vec<ChannelInfo>,
)
    requires
        channel.name@ == ANNOUNCEMENT_CHANNEL@,
        first_named(channels@, channel_name_of(current_day(posted_at as int))) is Some,
    ensures
        gate_run(
            GateState::Start,
            own_id,
            seq![
                GateEvent::Reaction { is_add: true, symbol: CHECKMARK, member },
                GateEvent::Channel(Some(channel)),
                GateEvent::Message { author: own_id, posted_at },
                GateEvent::Channels(channels),
                GateEvent::Applied,
            ],
        ) == (
            GateState::Done(GateOutcome::Unlocked),
            seq![
                GateAction::FetchChannel,
                GateAction::FetchMessage,
                GateAction::ListChannels,
                GateAction::Apply(
                    Grant {
                        channel: first_named(
                            channels@,
                            channel_name_of(current_day(posted_at as int)),
                        )->0,
                        overwrite: PermissionOverwrite {
                            principal: Principal::Member(member),
                            allow_read: true,
                            deny_read: false,
                        },
                    },
                ),
                GateAction::Stop(GateOutcome::Unlocked),
            ],
        ),
{
    let events = seq![
        GateEvent::Reaction { is_add: true, symbol: CHECKMARK, member },
        GateEvent::Channel(Some(channel)),
        GateEvent::Message { author: own_id, posted_at },
        GateEvent::Channels(channels),
        GateEvent::Applied,
    ];
    let s1 = gate_step(GateState::Start, own_id, events[0]);
    let s2 = gate_step(s1.0, own_id, events[1]);
    let s3 = gate_step(s2.0, own_id, events[2]);
    let s4 = gate_step(s3.0, own_id, events[3]);
    let s5 = gate_step(s4.0, own_id, events[4]);
    let e1 = events.drop_first();
    let e2 = e1.drop_first();
    let e3 = e2.drop_first();
    let e4 = e3.drop_first();
    let e5 = e4.drop_first();
    assert(e5.len() == 0);
    assert(gate_run(s5.0, own_id, e5) == (s5.0, Seq::<GateAction>::empty()));
    assert(gate_run(s4.0, own_id, e4) == (s5.0, seq![s5.1]));
    assert(gate_run(s3.0, own_id, e3) == (s5.0, seq![s4.1, s5.1]));
    assert(gate_run(s2.0, own_id, e2) == (s5.0, seq![s3.1, s4.1, s5.1]));
    assert(gate_run(s1.0, own_id, e1) == (s5.0, seq![s2.1, s3.1, s4.1, s5.1]));
    assert(gate_run(GateState::Start, own_id, events) == (s5.0, seq![s1.1, s2.1, s3.1, s4.1, s5.1]));
}

} // verus!
