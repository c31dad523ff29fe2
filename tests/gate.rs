use chrono::{Datelike, NaiveDate, TimeZone};
use chrono_tz::America::New_York;
use crossword_bot::announce::{
    is_announce_request, is_trigger_phrase, plan_announcement, AnnounceAction, AnnounceEvent, AnnounceState, Announcer,
};
use crossword_bot::guild::{
    everyone_role, find_channel, from_role_id, from_user_id, hide_channel,
    is_announcement_channel, is_announcement_message, unhide_channel, BotError, ChannelInfo, Grant,
    Missing, PermissionOverwrite, Principal, RoleInfo, CHECKMARK,
};
use crossword_bot::release::Puzzle;
use crossword_bot::unlock::{
    find_puzzle_channel, screen_message, screen_reaction, unlock_in, unlock_member, GateAction,
    GateEvent, GateOutcome, GateState, UnlockGate,
};

const BOT: u64 = 1;
const MEMBER: u64 = 77;
const EVERYONE: u64 = 500;

fn puzzle(y: i32, m: u32, d: u32) -> Puzzle {
    Puzzle::of(NaiveDate::from_ymd_opt(y, m, d).unwrap().num_days_from_ce()).unwrap()
}

fn channel(id: u64, name: &str) -> ChannelInfo {
    ChannelInfo { id, name: name.to_string() }
}

fn role(id: u64, name: &str, position: i64) -> RoleInfo {
    RoleInfo { id, name: name.to_string(), position }
}

#[test]
fn missing_announcement_channel_is_not_found() {
    let channels = vec![channel(10, "general"), channel(11, "commands")];
    assert_eq!(
        plan_announcement(puzzle(2024, 3, 15), &channels).unwrap_err(),
        BotError::NotFound(Missing::AnnouncementChannel)
    );
    assert_eq!(
        plan_announcement(puzzle(2024, 3, 15), &vec![]).unwrap_err(),
        BotError::NotFound(Missing::AnnouncementChannel)
    );
}

#[test]
fn existing_companion_channel_is_a_conflict() {
    let channels = vec![channel(10, "crosswords"), channel(12, "2024-3-15")];
    assert_eq!(plan_announcement(puzzle(2024, 3, 15), &channels).unwrap_err(), BotError::Conflict);
    // Another day's channel is no conflict.
    assert!(plan_announcement(puzzle(2024, 3, 16), &channels).is_ok());
}

#[test]
fn removed_reaction_is_ignored() {
    assert!(!screen_reaction(false, CHECKMARK));
    assert!(!screen_reaction(false, 'x'));
    assert!(!screen_reaction(true, 'x'));
    assert!(screen_reaction(true, CHECKMARK));
}

#[test]
fn message_checks() {
    let crosswords = Some(channel(10, "crosswords"));
    assert!(screen_message(&crosswords, BOT, BOT));
    assert!(!screen_message(&crosswords, MEMBER, BOT));
    assert!(!screen_message(&Some(channel(11, "general")), BOT, BOT));
    assert!(!screen_message(&None, BOT, BOT));
    assert!(is_announcement_channel(&channel(10, "crosswords")));
    assert!(!is_announcement_channel(&channel(10, "crossword")));
    assert!(is_announcement_message(BOT, BOT));
    assert!(!is_announcement_message(MEMBER, BOT));
}

#[test]
fn acknowledgement_unlocks_for_the_member_only() {
    let channels = vec![channel(10, "crosswords"), channel(12, "2024-3-15")];
    let grant = unlock_in(puzzle(2024, 3, 15), MEMBER, &channels).unwrap();
    assert_eq!(
        grant,
        Grant {
            channel: 12,
            overwrite: PermissionOverwrite {
                principal: Principal::Member(MEMBER),
                allow_read: true,
                deny_read: false,
            },
        }
    );
}

#[test]
fn missing_companion_channel_fails() {
    let channels = vec![channel(10, "crosswords")];
    let result = unlock_in(puzzle(2024, 3, 15), MEMBER, &channels);
    assert_eq!(result, Err(BotError::NotFound(Missing::CompanionChannel)));
    assert_eq!(find_puzzle_channel(puzzle(2024, 3, 15), &channels), None);
    assert_eq!(
        find_puzzle_channel(puzzle(2024, 3, 15), &vec![channel(4, "2024-3-15")]),
        Some(4)
    );
}

#[test]
fn announce_then_acknowledge() {
    let release = puzzle(2024, 3, 15);
    assert_eq!(release.weekday(), 4);
    let mut channels = vec![channel(10, "general"), channel(11, "crosswords")];
    let plan = plan_announcement(release, &channels).unwrap();
    assert_eq!(plan.notice_channel, 11);
    assert_eq!(plan.channel_name, "2024-3-15");
    assert_eq!(plan.notice, release.to_announcement());
    assert_eq!(plan.reaction, CHECKMARK);

    // The announcement: create the channel, hide it from the default role, post.
    let mut announcer = Announcer::new(release);
    announcer.on_event(AnnounceEvent::Begin);
    match announcer.on_event(AnnounceEvent::Channels(channels.clone())) {
        AnnounceAction::CreateChannel(name) => channels.push(channel(12, &name)),
        other => panic!("unexpected action {:?}", other),
    }
    let roles = vec![role(600, "mods", 3), role(EVERYONE, "@everyone", 0)];
    assert_eq!(everyone_role(&roles), Ok(EVERYONE));
    announcer.on_event(AnnounceEvent::Created(12));
    let hidden = match announcer.on_event(AnnounceEvent::Roles(roles)) {
        AnnounceAction::Apply(grant) => grant,
        other => panic!("unexpected action {:?}", other),
    };
    assert_eq!(hidden.channel, 12);
    assert_eq!(
        hidden.overwrite,
        PermissionOverwrite { principal: Principal::Role(EVERYONE), allow_read: false, deny_read: true }
    );
    assert_eq!(hidden.overwrite, hide_channel(from_role_id(EVERYONE)));
    let mut posts = 0;
    match announcer.on_event(AnnounceEvent::Applied) {
        AnnounceAction::Post { channel, notice, reaction } => {
            assert_eq!((channel, reaction), (11, CHECKMARK));
            assert_eq!(notice, release.to_announcement());
            posts += 1;
        }
        other => panic!("unexpected action {:?}", other),
    }
    assert!(matches!(announcer.on_event(AnnounceEvent::Posted), AnnounceAction::Stop(Ok(()))));
    assert_eq!(posts, 1);

    // A member adds the checkmark to the notice, posted on Friday morning.
    let posted_at = friday_morning();
    assert!(screen_reaction(true, CHECKMARK));
    assert!(screen_message(&Some(channels[1].clone()), BOT, BOT));
    let grant = unlock_member(MEMBER, posted_at, &channels).unwrap();
    assert_eq!(grant.channel, 12);
    assert_eq!(grant.overwrite, unhide_channel(Principal::Member(MEMBER)));

    let mut gate = UnlockGate::new(BOT);
    gate.on_event(GateEvent::Reaction { is_add: true, symbol: CHECKMARK, member: MEMBER });
    gate.on_event(GateEvent::Channel(Some(channel(11, "crosswords"))));
    gate.on_event(GateEvent::Message { author: BOT, posted_at });
    let action = gate.on_event(GateEvent::Channels(channels));
    assert_eq!(action, GateAction::Apply(grant));
    assert_eq!(gate.on_event(GateEvent::Applied), GateAction::Stop(GateOutcome::Unlocked));
    // The overwrite is the member's own; the default role's stays as it was.
    assert_eq!(grant.overwrite.principal, Principal::Member(MEMBER));
    assert_ne!(grant.overwrite.principal, hidden.overwrite.principal);
}

#[test]
fn late_acknowledgement_uses_the_posting_time() {
    let channels = vec![channel(11, "crosswords"), channel(12, "2024-3-15"), channel(13, "2024-3-16")];
    let posted_at = New_York
        .with_ymd_and_hms(2024, 3, 15, 21, 59, 59)
        .unwrap()
        .timestamp_nanos_opt()
        .unwrap();
    assert_eq!(unlock_member(MEMBER, posted_at, &channels).unwrap().channel, 12);
    let posted_later = posted_at + 1_000_000_000;
    assert_eq!(unlock_member(MEMBER, posted_later, &channels).unwrap().channel, 13);
}

#[test]
fn everyone_role_lookup() {
    assert_eq!(
        everyone_role(&vec![role(600, "@everyone", 2)]),
        Err(BotError::NotFound(Missing::EveryoneRole))
    );
    assert_eq!(everyone_role(&vec![]), Err(BotError::NotFound(Missing::EveryoneRole)));
    assert_eq!(everyone_role(&vec![role(600, "mods", -1), role(7, "@everyone", 0)]), Ok(7));
}

#[test]
fn first_channel_of_a_name_wins() {
    let channels = vec![channel(3, "a"), channel(4, "b"), channel(5, "b")];
    assert_eq!(find_channel(&channels, "b"), Some(4));
    assert_eq!(find_channel(&channels, "c"), None);
}

#[test]
fn announce_requests() {
    let command = "<@1> announce".to_string();
    assert!(is_announce_request(MEMBER, BOT, &channel(11, "commands"), &command));
    assert!(is_announce_request(MEMBER, BOT, &channel(11, "commands"), &"<@!1> announce".to_string()));
    assert!(!is_announce_request(BOT, BOT, &channel(11, "commands"), &command));
    assert!(!is_announce_request(MEMBER, BOT, &channel(11, "crosswords"), &command));
    assert!(!is_announce_request(MEMBER, BOT, &channel(11, "commands"), &"<@2> announce".to_string()));
    assert!(!is_announce_request(MEMBER, BOT, &channel(11, "commands"), &"announce".to_string()));
    assert!(is_trigger_phrase(&"<@1234567890> announce".to_string(), 1234567890));
    assert!(!is_trigger_phrase(&"<@1234567890> announce!".to_string(), 1234567890));
}

fn friday_morning() -> i64 {
    New_York.with_ymd_and_hms(2024, 3, 15, 9, 0, 0).unwrap().timestamp_nanos_opt().unwrap()
}

#[test]
fn gate_removal_asks_for_nothing() {
    let mut gate = UnlockGate::new(BOT);
    let action = gate.on_event(GateEvent::Reaction { is_add: false, symbol: CHECKMARK, member: MEMBER });
    assert_eq!(action, GateAction::Stop(GateOutcome::Ignored));
    assert!(matches!(gate.state, GateState::Done(GateOutcome::Ignored)));
    // Nothing that comes after changes the outcome.
    assert_eq!(gate.on_event(GateEvent::Applied), GateAction::Stop(GateOutcome::Ignored));
}

#[test]
fn gate_other_symbol_is_ignored() {
    let mut gate = UnlockGate::new(BOT);
    let action = gate.on_event(GateEvent::Reaction { is_add: true, symbol: 'x', member: MEMBER });
    assert_eq!(action, GateAction::Stop(GateOutcome::Ignored));
}

#[test]
fn gate_unlocks_for_an_acknowledged_announcement() {
    let channels = vec![channel(11, "crosswords"), channel(12, "2024-3-15")];
    let mut gate = UnlockGate::new(BOT);
    let mut actions = vec![];
    actions.push(gate.on_event(GateEvent::Reaction { is_add: true, symbol: CHECKMARK, member: MEMBER }));
    actions.push(gate.on_event(GateEvent::Channel(Some(channel(11, "crosswords")))));
    actions.push(gate.on_event(GateEvent::Message { author: BOT, posted_at: friday_morning() }));
    actions.push(gate.on_event(GateEvent::Channels(channels)));
    actions.push(gate.on_event(GateEvent::Applied));
    let grant = Grant { channel: 12, overwrite: unhide_channel(from_user_id(MEMBER)) };
    assert_eq!(
        actions,
        vec![
            GateAction::FetchChannel,
            GateAction::FetchMessage,
            GateAction::ListChannels,
            GateAction::Apply(grant),
            GateAction::Stop(GateOutcome::Unlocked),
        ]
    );
    let applies = actions.iter().filter(|a| matches!(a, GateAction::Apply(_))).count();
    assert_eq!(applies, 1);
}

#[test]
fn gate_ignores_messages_of_others_and_other_channels() {
    let mut gate = UnlockGate::new(BOT);
    gate.on_event(GateEvent::Reaction { is_add: true, symbol: CHECKMARK, member: MEMBER });
    gate.on_event(GateEvent::Channel(Some(channel(11, "crosswords"))));
    let action = gate.on_event(GateEvent::Message { author: MEMBER, posted_at: friday_morning() });
    assert_eq!(action, GateAction::Stop(GateOutcome::Ignored));

    let mut gate = UnlockGate::new(BOT);
    gate.on_event(GateEvent::Reaction { is_add: true, symbol: CHECKMARK, member: MEMBER });
    gate.on_event(GateEvent::Channel(None));
    let action = gate.on_event(GateEvent::Message { author: BOT, posted_at: friday_morning() });
    assert_eq!(action, GateAction::Stop(GateOutcome::Ignored));
}

#[test]
fn gate_fails_without_companion_channel_or_on_request_failure() {
    let mut gate = UnlockGate::new(BOT);
    gate.on_event(GateEvent::Reaction { is_add: true, symbol: CHECKMARK, member: MEMBER });
    gate.on_event(GateEvent::Channel(Some(channel(11, "crosswords"))));
    gate.on_event(GateEvent::Message { author: BOT, posted_at: friday_morning() });
    let action = gate.on_event(GateEvent::Channels(vec![channel(11, "crosswords")]));
    assert_eq!(
        action,
        GateAction::Stop(GateOutcome::Failed(BotError::NotFound(Missing::CompanionChannel)))
    );

    let mut gate = UnlockGate::new(BOT);
    gate.on_event(GateEvent::Reaction { is_add: true, symbol: CHECKMARK, member: MEMBER });
    let action = gate.on_event(GateEvent::RequestFailed(BotError::Api));
    assert_eq!(action, GateAction::Stop(GateOutcome::Failed(BotError::Api)));
}

#[test]
fn gate_stops_on_an_unexpected_event() {
    let mut gate = UnlockGate::new(BOT);
    let action = gate.on_event(GateEvent::Applied);
    assert_eq!(action, GateAction::Stop(GateOutcome::Ignored));
}

#[test]
fn announcer_without_announcement_channel_creates_nothing() {
    let mut announcer = Announcer::new(puzzle(2024, 3, 15));
    assert!(matches!(announcer.on_event(AnnounceEvent::Begin), AnnounceAction::ListChannels));
    let action = announcer.on_event(AnnounceEvent::Channels(vec![channel(10, "general")]));
    assert!(matches!(
        action,
        AnnounceAction::Stop(Err(BotError::NotFound(Missing::AnnouncementChannel)))
    ));
    assert!(matches!(announcer.on_event(AnnounceEvent::Created(12)), AnnounceAction::Stop(Err(_))));
}

#[test]
fn announcer_with_existing_companion_channel_posts_nothing() {
    let mut announcer = Announcer::new(puzzle(2024, 3, 15));
    announcer.on_event(AnnounceEvent::Begin);
    let channels = vec![channel(11, "crosswords"), channel(12, "2024-3-15")];
    let action = announcer.on_event(AnnounceEvent::Channels(channels));
    assert!(matches!(action, AnnounceAction::Stop(Err(BotError::Conflict))));
    assert!(matches!(announcer.state, AnnounceState::Done(Err(BotError::Conflict))));
    assert!(matches!(announcer.on_event(AnnounceEvent::Applied), AnnounceAction::Stop(Err(BotError::Conflict))));
}

#[test]
fn announcer_runs_the_four_steps_in_order() {
    let release = puzzle(2024, 3, 15);
    let mut announcer = Announcer::new(release);
    assert!(matches!(announcer.on_event(AnnounceEvent::Begin), AnnounceAction::ListChannels));
    let channels = vec![channel(10, "general"), channel(11, "crosswords")];
    match announcer.on_event(AnnounceEvent::Channels(channels)) {
        AnnounceAction::CreateChannel(name) => assert_eq!(name, "2024-3-15"),
        other => panic!("unexpected action {:?}", other),
    }
    assert!(matches!(announcer.on_event(AnnounceEvent::Created(12)), AnnounceAction::ListRoles));
    let roles = vec![role(600, "mods", 3), role(EVERYONE, "@everyone", 0)];
    match announcer.on_event(AnnounceEvent::Roles(roles)) {
        AnnounceAction::Apply(grant) => {
            assert_eq!(grant.channel, 12);
            assert_eq!(grant.overwrite, hide_channel(Principal::Role(EVERYONE)));
        }
        other => panic!("unexpected action {:?}", other),
    }
    match announcer.on_event(AnnounceEvent::Applied) {
        AnnounceAction::Post { channel, notice, reaction } => {
            assert_eq!(channel, 11);
            assert_eq!(notice, release.to_announcement());
            assert_eq!(reaction, CHECKMARK);
        }
        other => panic!("unexpected action {:?}", other),
    }
    assert!(matches!(announcer.on_event(AnnounceEvent::Posted), AnnounceAction::Stop(Ok(()))));
}

#[test]
fn announcer_stops_without_everyone_role_or_on_failure() {
    let mut announcer = Announcer::new(puzzle(2024, 3, 15));
    announcer.on_event(AnnounceEvent::Begin);
    announcer.on_event(AnnounceEvent::Channels(vec![channel(11, "crosswords")]));
    announcer.on_event(AnnounceEvent::Created(12));
    let action = announcer.on_event(AnnounceEvent::Roles(vec![role(600, "mods", 3)]));
    assert!(matches!(action, AnnounceAction::Stop(Err(BotError::NotFound(Missing::EveryoneRole)))));

    let mut announcer = Announcer::new(puzzle(2024, 3, 15));
    announcer.on_event(AnnounceEvent::Begin);
    announcer.on_event(AnnounceEvent::Channels(vec![channel(11, "crosswords")]));
    let action = announcer.on_event(AnnounceEvent::RequestFailed(BotError::Api));
    assert!(matches!(action, AnnounceAction::Stop(Err(BotError::Api))));
}
