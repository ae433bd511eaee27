use ao_chat_client::channel::{Channel, Group, Message};
use ao_chat_client::chat::{ChatState, Command, StateQuery};
use ao_chat_client::command;
use ao_chat_client::config::Config;
use ao_chat_client::event::{Character, Effect, Event, Fatal, LoginPhase, Lookup, Outbound};
use ao_chat_client::resolved::{ChannelType, ResolvedChannel, ResolvedMessage, UiUpdate};

fn name(s: &str) -> String {
    String::from(s)
}

fn config() -> Config {
    Config { character_name: name("Hero"), user_name: name("me"), password: name("secret") }
}

fn group(id: u32, n: Option<&str>) -> Channel {
    Channel::Group(Group { id, name: n.map(String::from) })
}

fn resolved(id: u32, n: &str, kind: ChannelType) -> ResolvedChannel {
    ResolvedChannel { id, name: name(n), kind }
}

fn announce(state: &mut ChatState, id: u32, n: &str) {
    let out = state.handle_event(Event::IdentityAnnounced { id, name: name(n) }, &config());
    assert_eq!(out, Ok(vec![]));
}

fn message(sender: Option<u32>, channel: Channel, text: &str) -> Message {
    Message { sender, channel, text: name(text), send_tag: name("\u{0}") }
}

#[test]
fn a_new_state_is_empty_and_awaits_the_seed() {
    let state = ChatState::new();
    assert!(state.channels().is_empty());
    assert!(state.past_invites().is_empty());
    assert_eq!(state.current_user(), 0);
    assert_eq!(state.phase(), LoginPhase::AwaitingSeed);
    assert!(!state.is_pending("Bob"));
    assert_eq!(state.name_of(1), None);
    assert_eq!(state.list_channels(), Ok(vec![]));
}

#[test]
fn login_flow() {
    let mut state = ChatState::new();
    let out = state.handle_event(Event::SeedIssued(name("S1")), &config());
    assert_eq!(
        out,
        Ok(vec![Effect::Send(Outbound::Login {
            user_name: name("me"),
            password: name("secret"),
            seed: name("S1"),
        })])
    );
    assert_eq!(state.phase(), LoginPhase::AwaitingCharacterList);
    assert_eq!(state.current_user(), 0);

    let out = state.handle_event(
        Event::CharacterList(vec![Character { id: 5, name: name("Hero") }]),
        &config(),
    );
    assert_eq!(out, Ok(vec![Effect::Send(Outbound::SelectCharacter(5))]));
    assert_eq!(state.current_user(), 5);
    assert_eq!(state.phase(), LoginPhase::AwaitingLoginConfirmation);

    let out = state.handle_event(Event::LoginConfirmed, &config());
    assert_eq!(out, Ok(vec![]));
    assert_eq!(state.phase(), LoginPhase::Ready);
    assert_eq!(state.current_user(), 5);
}

#[test]
fn a_missing_character_is_fatal() {
    let mut state = ChatState::new();
    let out = state.handle_event(
        Event::CharacterList(vec![
            Character { id: 5, name: name("hero") },
            Character { id: 6, name: name("Heroine") },
        ]),
        &config(),
    );
    assert_eq!(out, Err(Fatal::CharacterMissing));
    assert_eq!(state.current_user(), 0);
    assert_eq!(state.phase(), LoginPhase::AwaitingSeed);
    assert_eq!(state.handle_event(Event::CharacterList(vec![]), &config()), Err(Fatal::CharacterMissing));
}

#[test]
fn the_first_character_of_the_name_is_chosen() {
    let mut state = ChatState::new();
    let out = state.handle_event(
        Event::CharacterList(vec![
            Character { id: 4, name: name("Other") },
            Character { id: 5, name: name("Hero") },
            Character { id: 6, name: name("Hero") },
        ]),
        &config(),
    );
    assert_eq!(out, Ok(vec![Effect::Send(Outbound::SelectCharacter(5))]));
    assert_eq!(state.current_user(), 5);
}

#[test]
fn a_login_error_is_fatal() {
    let mut state = ChatState::new();
    let out = state.handle_event(Event::LoginError(name("banned")), &config());
    assert_eq!(out, Err(Fatal::LoginRejected(name("banned"))));
    assert_eq!(state.phase(), LoginPhase::AwaitingSeed);
}

#[test]
fn other_events_change_nothing() {
    let mut state = ChatState::new();
    assert_eq!(state.handle_event(Event::Other, &config()), Ok(vec![]));
    assert!(state.channels().is_empty());
    assert_eq!(state.phase(), LoginPhase::AwaitingSeed);
}

#[test]
fn an_announced_identity_is_known() {
    let mut state = ChatState::new();
    announce(&mut state, 99, "Bob");
    assert_eq!(state.name_of(99), Some(&name("Bob")));
    assert_eq!(state.lookup_outcome("Bob"), Some(99));
    assert_eq!(state.lookup_user("Bob"), Lookup::Known(99));
    assert!(!state.is_pending("Bob"));
}

#[test]
fn identities_stay_a_bijection() {
    let mut state = ChatState::new();
    announce(&mut state, 1, "a");
    announce(&mut state, 2, "b");
    announce(&mut state, 1, "b");
    assert_eq!(state.name_of(1), Some(&name("b")));
    assert_eq!(state.name_of(2), None);
    assert_eq!(state.lookup_outcome("a"), None);
    assert_eq!(state.lookup_outcome("b"), Some(1));
    let out = state.handle_event(Event::LookupResult { name: name("c"), id: 1, found: true }, &config());
    assert_eq!(out, Ok(vec![]));
    assert_eq!(state.name_of(1), Some(&name("c")));
    assert_eq!(state.lookup_outcome("b"), None);
    assert_eq!(state.lookup_outcome("c"), Some(1));
}

#[test]
fn concurrent_lookups_send_one_request() {
    let mut state = ChatState::new();
    assert_eq!(state.lookup_user("Bob"), Lookup::Requested);
    assert!(state.is_pending("Bob"));
    for _ in 0..5 {
        assert_eq!(state.lookup_user("Bob"), Lookup::Joined);
    }
    assert_eq!(state.lookup_user("Alice"), Lookup::Requested);
    assert_eq!(state.lookup_user("Bob"), Lookup::Joined);

    let out = state.handle_event(Event::LookupResult { name: name("Bob"), id: 99, found: true }, &config());
    assert_eq!(out, Ok(vec![Effect::Wake(name("Bob"))]));
    assert!(!state.is_pending("Bob"));
    assert!(state.is_pending("Alice"));
    for _ in 0..6 {
        assert_eq!(state.lookup_outcome("Bob"), Some(99));
    }
    assert_eq!(state.lookup_user("Bob"), Lookup::Known(99));
    assert_eq!(state.channels(), &vec![Channel::Tell(99)]);
}

#[test]
fn a_name_that_is_not_found_releases_with_nothing() {
    let mut state = ChatState::new();
    announce(&mut state, 7, "Me");
    assert_eq!(state.lookup_user("Bob"), Lookup::Requested);
    assert_eq!(state.lookup_user("Bob"), Lookup::Joined);
    let out = state.handle_event(Event::LookupResult { name: name("Bob"), id: 99, found: false }, &config());
    assert_eq!(out, Ok(vec![Effect::Wake(name("Bob"))]));
    assert!(!state.is_pending("Bob"));
    assert_eq!(state.lookup_outcome("Bob"), None);
    assert_eq!(state.name_of(99), None);
    assert_eq!(state.name_of(7), Some(&name("Me")));
    assert!(state.channels().is_empty());
    assert_eq!(state.lookup_user("Bob"), Lookup::Requested);
}

#[test]
fn an_answer_nobody_waits_for_wakes_nobody() {
    let mut state = ChatState::new();
    let out = state.handle_event(Event::LookupResult { name: name("Bob"), id: 99, found: true }, &config());
    assert_eq!(out, Ok(vec![]));
    assert_eq!(state.lookup_outcome("Bob"), Some(99));
    let out = state.handle_event(Event::LookupResult { name: name("Eve"), id: 1, found: false }, &config());
    assert_eq!(out, Ok(vec![]));
}

#[test]
fn a_found_name_registers_its_tell_channel_once() {
    let mut state = ChatState::new();
    for _ in 0..2 {
        let out = state.handle_event(Event::LookupResult { name: name("Bob"), id: 99, found: true }, &config());
        assert_eq!(out, Ok(vec![]));
    }
    assert_eq!(state.channels(), &vec![Channel::Tell(99)]);
}

#[test]
fn sending_a_tell() {
    let mut state = ChatState::new();
    let _ = state.handle_event(Event::CharacterList(vec![Character { id: 7, name: name("Hero") }]), &config());
    announce(&mut state, 7, "Hero");
    announce(&mut state, 42, "Bob");
    assert_eq!(state.current_user(), 7);
    let out = state.send_tell(Some(42), name("hi"));
    assert_eq!(
        out,
        Ok(vec![
            Effect::Update(UiUpdate::Message(ResolvedMessage {
                sender: Some(name("Hero")),
                channel: resolved(42, "Bob", ChannelType::Tell),
                text: name("hi"),
            })),
            Effect::Send(Outbound::Tell(message(Some(7), Channel::Tell(42), "hi"))),
        ])
    );
    assert_eq!(state.channels(), &vec![Channel::Tell(42)]);
    let _ = state.send_tell(Some(42), name("again"));
    assert_eq!(state.channels(), &vec![Channel::Tell(42)]);
}

#[test]
fn a_tell_to_nobody_does_nothing() {
    let mut state = ChatState::new();
    assert_eq!(state.send_tell(None, name("hi")), Ok(vec![]));
    assert!(state.channels().is_empty());
}

#[test]
fn a_tell_between_unknown_characters_is_fatal() {
    let mut state = ChatState::new();
    announce(&mut state, 42, "Bob");
    assert_eq!(state.send_tell(Some(42), name("hi")), Err(Fatal::Unresolvable));
    assert!(state.channels().is_empty());
    let mut state = ChatState::new();
    announce(&mut state, 0, "Hero");
    assert_eq!(state.send_tell(Some(42), name("hi")), Err(Fatal::Unresolvable));
    assert!(state.channels().is_empty());
}

#[test]
fn invite_kick_and_leave_go_by_the_id() {
    let state = ChatState::new();
    assert_eq!(state.invite(Some(9)), Some(Outbound::Invite(9)));
    assert_eq!(state.kick(Some(9)), Some(Outbound::Kick(9)));
    assert_eq!(state.leave(Some(9)), Some(Outbound::Leave(Channel::PrivateChannel(9))));
    assert_eq!(state.invite(None), None);
    assert_eq!(state.kick(None), None);
    assert_eq!(state.leave(None), None);
}

#[test]
fn a_message_to_a_group_goes_to_the_registered_group() {
    let mut state = ChatState::new();
    let _ = state.handle_event(Event::GroupAnnounced(group(5, Some("Clan"))), &config());
    let out = state.send_message(&resolved(5, "whatever", ChannelType::Group), name("hello"));
    assert_eq!(
        out,
        Ok(vec![Effect::Send(Outbound::GroupMessage(message(Some(0), group(5, Some("Clan")), "hello")))])
    );
    assert_eq!(state.channels(), &vec![group(5, Some("Clan"))]);
}

#[test]
fn only_a_registered_group_can_be_sent_to() {
    let mut state = ChatState::new();
    assert!(!state.can_send(&resolved(5, "Clan", ChannelType::Group)));
    let _ = state.handle_event(Event::GroupAnnounced(group(5, Some("Clan"))), &config());
    assert!(state.can_send(&resolved(5, "Clan", ChannelType::Group)));
    assert!(state.can_send(&resolved(5, "another name", ChannelType::Group)));
    assert!(!state.can_send(&resolved(6, "Clan", ChannelType::Group)));
}

#[test]
fn tells_and_private_channels_can_always_be_sent_to() {
    let state = ChatState::new();
    assert!(state.can_send(&resolved(3, "Bob", ChannelType::Tell)));
    assert!(state.can_send(&resolved(3, "Bob", ChannelType::PrivateChannel)));
}

#[test]
fn a_message_to_a_private_channel() {
    let mut state = ChatState::new();
    let out = state.send_message(&resolved(3, "Bob", ChannelType::PrivateChannel), name("hello"));
    assert_eq!(
        out,
        Ok(vec![Effect::Send(Outbound::PrivateChannelMessage(message(
            Some(0),
            Channel::PrivateChannel(3),
            "hello"
        )))])
    );
    assert!(state.channels().is_empty());
}

#[test]
fn a_message_to_a_tell_channel_is_echoed() {
    let mut state = ChatState::new();
    announce(&mut state, 0, "Me");
    announce(&mut state, 42, "Bob");
    let out = state.send_message(&resolved(42, "Bob", ChannelType::Tell), name("hi"));
    assert_eq!(
        out,
        Ok(vec![
            Effect::Update(UiUpdate::Message(ResolvedMessage {
                sender: Some(name("Me")),
                channel: resolved(42, "Bob", ChannelType::Tell),
                text: name("hi"),
            })),
            Effect::Send(Outbound::Tell(message(Some(0), Channel::Tell(42), "hi"))),
        ])
    );
    assert_eq!(state.channels(), &vec![Channel::Tell(42)]);
}

#[test]
fn the_vicinity_cannot_be_sent_to() {
    let mut state = ChatState::new();
    assert!(!state.can_send(&resolved(0, "Vicinity", ChannelType::Vicinity)));
    assert!(!state.can_send(&resolved(5, "Clan", ChannelType::Vicinity)));
    let _ = state.handle_event(Event::GroupAnnounced(Channel::Vicinity), &config());
    assert!(!state.can_send(&resolved(0, "Vicinity", ChannelType::Vicinity)));
}

#[test]
fn a_received_message_is_shown_with_its_names() {
    let mut state = ChatState::new();
    announce(&mut state, 99, "Bob");
    let _ = state.handle_event(Event::GroupAnnounced(group(5, Some("Clan"))), &config());
    let out = state.handle_event(
        Event::MessageReceived(message(Some(99), group(5, None), "hello")),
        &config(),
    );
    assert_eq!(
        out,
        Ok(vec![Effect::Update(UiUpdate::Message(ResolvedMessage {
            sender: Some(name("Bob")),
            channel: resolved(5, "Clan", ChannelType::Group),
            text: name("hello"),
        }))])
    );
    assert_eq!(state.channels(), &vec![group(5, Some("Clan"))]);
}

#[test]
fn a_received_tell_registers_its_channel_once() {
    let mut state = ChatState::new();
    announce(&mut state, 99, "Bob");
    for _ in 0..2 {
        let out = state.handle_event(
            Event::MessageReceived(message(Some(99), Channel::Tell(99), "psst")),
            &config(),
        );
        assert_eq!(
            out,
            Ok(vec![Effect::Update(UiUpdate::Message(ResolvedMessage {
                sender: Some(name("Bob")),
                channel: resolved(99, "Bob", ChannelType::Tell),
                text: name("psst"),
            }))])
        );
    }
    assert_eq!(state.channels(), &vec![Channel::Tell(99)]);
}

#[test]
fn a_vicinity_message_without_sender() {
    let mut state = ChatState::new();
    let out = state.handle_event(Event::MessageReceived(message(None, Channel::Vicinity, "wind")), &config());
    assert_eq!(
        out,
        Ok(vec![Effect::Update(UiUpdate::Message(ResolvedMessage {
            sender: None,
            channel: resolved(0, "Vicinity", ChannelType::Vicinity),
            text: name("wind"),
        }))])
    );
    assert!(state.channels().is_empty());
}

#[test]
fn a_message_from_an_unknown_sender_is_fatal() {
    let mut state = ChatState::new();
    let out = state.handle_event(Event::MessageReceived(message(Some(99), Channel::Vicinity, "x")), &config());
    assert_eq!(out, Err(Fatal::Unresolvable));
}

#[test]
fn a_message_in_an_unknown_channel_is_fatal() {
    let mut state = ChatState::new();
    announce(&mut state, 99, "Bob");
    for channel in [Channel::Tell(1), Channel::PrivateChannel(1), group(5, None)] {
        let out = state.handle_event(Event::MessageReceived(message(Some(99), channel, "x")), &config());
        assert_eq!(out, Err(Fatal::Unresolvable));
    }
    assert!(state.channels().is_empty());
}

#[test]
fn a_group_without_name_takes_the_name_announced_before() {
    let mut state = ChatState::new();
    let _ = state.handle_event(Event::GroupAnnounced(group(4, Some("Other"))), &config());
    let _ = state.handle_event(Event::GroupAnnounced(group(5, Some("Clan"))), &config());
    let _ = state.handle_event(Event::GroupAnnounced(group(5, Some("Later"))), &config());
    assert_eq!(
        state.resolve_channel(&group(5, None)),
        Some(resolved(5, "Clan", ChannelType::Group))
    );
    assert_eq!(ResolvedChannel::new(&state, &group(5, None)), resolved(5, "Clan", ChannelType::Group));
    assert_eq!(state.resolve_channel(&group(5, Some("Own"))), Some(resolved(5, "Own", ChannelType::Group)));
    assert_eq!(state.resolve_channel(&group(6, None)), None);
    assert_eq!(state.channels(), &vec![group(4, Some("Other")), group(5, Some("Clan"))]);
}

#[test]
fn a_group_announced_twice_has_one_entry() {
    let mut state = ChatState::new();
    let out = state.handle_event(Event::GroupAnnounced(group(5, Some("Clan"))), &config());
    assert_eq!(out, Ok(vec![]));
    let out = state.handle_event(Event::GroupAnnounced(group(5, None)), &config());
    assert_eq!(out, Ok(vec![]));
    let out = state.handle_event(Event::GroupAnnounced(group(5, Some("Clan"))), &config());
    assert_eq!(out, Ok(vec![]));
    assert_eq!(state.channels(), &vec![group(5, Some("Clan"))]);
    assert_eq!(state.list_channels(), Ok(vec![resolved(5, "Clan", ChannelType::Group)]));
}

#[test]
fn announcements_of_other_channels_are_registered() {
    let mut state = ChatState::new();
    state.announce_channel(Channel::PrivateChannel(3));
    state.announce_channel(Channel::PrivateChannel(3));
    state.announce_channel(Channel::Tell(3));
    state.announce_channel(Channel::Tell(3));
    state.announce_channel(group(3, None));
    state.announce_channel(group(4, None));
    state.announce_channel(group(3, Some("x")));
    assert_eq!(
        state.channels(),
        &vec![
            Channel::PrivateChannel(3),
            Channel::PrivateChannel(3),
            Channel::Tell(3),
            group(3, None),
            group(4, None),
        ]
    );
}

#[test]
fn a_group_whose_first_announcement_had_no_name_stays_nameless() {
    let mut state = ChatState::new();
    let _ = state.handle_event(Event::GroupAnnounced(group(5, None)), &config());
    let _ = state.handle_event(Event::GroupAnnounced(group(5, Some("Clan"))), &config());
    assert_eq!(state.channels(), &vec![group(5, None)]);
    assert_eq!(state.resolve_channel(&group(5, None)), None);
    assert_eq!(state.list_channels(), Err(Fatal::Unresolvable));
}

#[test]
fn channels_resolve_by_kind() {
    let mut state = ChatState::new();
    announce(&mut state, 3, "Bob");
    assert_eq!(state.resolve_channel(&Channel::Tell(3)), Some(resolved(3, "Bob", ChannelType::Tell)));
    assert_eq!(
        state.resolve_channel(&Channel::PrivateChannel(3)),
        Some(resolved(3, "Bob", ChannelType::PrivateChannel))
    );
    assert_eq!(
        state.resolve_channel(&Channel::Vicinity),
        Some(resolved(0, "Vicinity", ChannelType::Vicinity))
    );
    assert_eq!(state.resolve_channel(&Channel::Tell(4)), None);
    assert_eq!(state.resolve_channel(&Channel::PrivateChannel(4)), None);
}

#[test]
fn a_message_resolves_with_sender_and_channel() {
    let mut state = ChatState::new();
    announce(&mut state, 3, "Bob");
    let m = message(Some(3), Channel::PrivateChannel(3), "x");
    let expected = ResolvedMessage {
        sender: Some(name("Bob")),
        channel: resolved(3, "Bob", ChannelType::PrivateChannel),
        text: name("x"),
    };
    assert_eq!(state.resolve_message(&m), Some(expected.clone()));
    assert_eq!(ResolvedMessage::new(&state, &m), expected);
    assert_eq!(state.resolve_message(&message(Some(4), Channel::PrivateChannel(3), "x")), None);
    assert_eq!(state.resolve_message(&message(Some(3), Channel::PrivateChannel(4), "x")), None);
}

#[test]
fn invitations_are_kept_in_order() {
    let mut state = ChatState::new();
    let _ = state.handle_event(Event::InviteReceived(Channel::PrivateChannel(3)), &config());
    let _ = state.handle_event(Event::InviteReceived(Channel::PrivateChannel(4)), &config());
    let out = state.handle_event(Event::InviteReceived(Channel::PrivateChannel(3)), &config());
    assert_eq!(out, Ok(vec![]));
    assert_eq!(
        state.past_invites(),
        &vec![Channel::PrivateChannel(3), Channel::PrivateChannel(4), Channel::PrivateChannel(3)]
    );
    assert!(state.channels().is_empty());
}

#[test]
fn the_channel_list_is_resolved_in_order() {
    let mut state = ChatState::new();
    announce(&mut state, 3, "Bob");
    let _ = state.handle_event(Event::GroupAnnounced(group(5, Some("Clan"))), &config());
    let _ = state.handle_event(Event::MessageReceived(message(Some(3), Channel::Tell(3), "x")), &config());
    let _ = state.handle_event(Event::GroupAnnounced(Channel::PrivateChannel(3)), &config());
    let expected = vec![
        resolved(5, "Clan", ChannelType::Group),
        resolved(3, "Bob", ChannelType::Tell),
        resolved(3, "Bob", ChannelType::PrivateChannel),
    ];
    assert_eq!(state.list_channels(), Ok(expected.clone()));
    assert_eq!(state.answer(StateQuery::Channels), Ok(expected));
}

#[test]
fn a_channel_without_known_name_fails_the_list() {
    let mut state = ChatState::new();
    let _ = state.handle_event(Event::GroupAnnounced(Channel::Tell(3)), &config());
    assert_eq!(state.list_channels(), Err(Fatal::Unresolvable));
}

#[test]
fn commands_are_carried_out_with_the_looked_up_id() {
    let mut state = ChatState::new();
    announce(&mut state, 0, "Me");
    announce(&mut state, 9, "Bob");
    assert_eq!(
        state.execute(Command::Invite(name("Bob")), Some(9)),
        Ok(vec![Effect::Send(Outbound::Invite(9))])
    );
    assert_eq!(
        state.execute(Command::Kick(name("Bob")), Some(9)),
        Ok(vec![Effect::Send(Outbound::Kick(9))])
    );
    assert_eq!(
        state.execute(Command::Leave(name("Bob")), Some(9)),
        Ok(vec![Effect::Send(Outbound::Leave(Channel::PrivateChannel(9)))])
    );
    assert_eq!(state.execute(Command::Invite(name("Bob")), None), Ok(vec![]));
    assert_eq!(state.execute(Command::Kick(name("Bob")), None), Ok(vec![]));
    assert_eq!(state.execute(Command::Leave(name("Bob")), None), Ok(vec![]));
    assert_eq!(state.execute(Command::Tell(name("Bob"), name("hi")), None), Ok(vec![]));
    assert!(state.channels().is_empty());
    assert_eq!(
        state.execute(Command::Tell(name("Bob"), name("hi")), Some(9)),
        Ok(vec![
            Effect::Update(UiUpdate::Message(ResolvedMessage {
                sender: Some(name("Me")),
                channel: resolved(9, "Bob", ChannelType::Tell),
                text: name("hi"),
            })),
            Effect::Send(Outbound::Tell(message(Some(0), Channel::Tell(9), "hi"))),
        ])
    );
    assert_eq!(
        state.execute(Command::Message(resolved(9, "Bob", ChannelType::PrivateChannel), name("yo")), None),
        Ok(vec![Effect::Send(Outbound::PrivateChannelMessage(message(
            Some(0),
            Channel::PrivateChannel(9),
            "yo"
        )))])
    );
}

#[test]
fn a_typed_command_becomes_a_command() {
    assert_eq!(Command::from(command::Command::Invite(name("a"))), Command::Invite(name("a")));
    assert_eq!(Command::from(command::Command::Kick(name("a"))), Command::Kick(name("a")));
    assert_eq!(Command::from(command::Command::Leave(name("a"))), Command::Leave(name("a")));
    assert_eq!(
        Command::from(command::Command::Tell(name("a"), name("b"))),
        Command::Tell(name("a"), name("b"))
    );
}

#[test]
fn the_name_in_a_command_is_what_is_looked_up() {
    assert_eq!(Command::Invite(name("a")).user(), Some(&name("a")));
    assert_eq!(Command::Kick(name("a")).user(), Some(&name("a")));
    assert_eq!(Command::Leave(name("a")).user(), Some(&name("a")));
    assert_eq!(Command::Tell(name("a"), name("b")).user(), Some(&name("a")));
    assert_eq!(Command::Message(resolved(1, "x", ChannelType::Tell), name("b")).user(), None);
}

#[test]
fn the_tag_of_a_sent_message_is_one_zero_character() {
    let mut state = ChatState::new();
    let out = state.route(Channel::PrivateChannel(1), name("x")).unwrap();
    match &out[0] {
        Effect::Send(Outbound::PrivateChannelMessage(m)) => assert_eq!(m.send_tag, "\u{0}"),
        other => panic!("{:?}", other),
    }
}

#[test]
fn only_the_lookup_that_was_requested_sends_a_request() {
    assert_eq!(Lookup::Requested.request("Bob"), Some(Outbound::Lookup(name("Bob"))));
    assert_eq!(Lookup::Joined.request("Bob"), None);
    assert_eq!(Lookup::Known(9).request("Bob"), None);
}

#[test]
fn inserting_the_same_tell_channel_twice_leaves_one_entry() {
    let mut state = ChatState::new();
    state.register_channel(Channel::Tell(42));
    state.register_channel(group(5, Some("Clan")));
    state.register_channel(Channel::Tell(42));
    state.register_channel(group(5, Some("Clan")));
    assert_eq!(
        state.channels(),
        &vec![Channel::Tell(42), group(5, Some("Clan")), group(5, Some("Clan"))]
    );
    assert!(state.past_invites().is_empty());
}

#[test]
fn an_invitation_is_noted_every_time() {
    let mut state = ChatState::new();
    state.register_invite(Channel::PrivateChannel(3));
    state.register_invite(Channel::PrivateChannel(3));
    assert_eq!(state.past_invites(), &vec![Channel::PrivateChannel(3), Channel::PrivateChannel(3)]);
    assert!(state.channels().is_empty());
}
