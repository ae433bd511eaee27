//! The engine: the shared state of a session and what each event, lookup
//! and command does to it.

use crate::channel::{announce, find_group, register, Channel, Message};
use crate::config::Config;
use crate::event::{
    outcome_view, Character, Effect, Event, Fatal, LoginPhase, Lookup, Outbound, Outcome,
};
use crate::identity::IdentityCache;
use crate::model::{
    first_character, invite_request, kick_request, leave_request, no_tag, ChatModel,
};
use crate::resolved::{ChannelType, ResolvedChannel, ResolvedMessage, UiUpdate};
use crate::text::same_text;
use vstd::hash_set::StringHashSet;
use vstd::pervasive::unreached;
use vstd::prelude::*;
use vstd::string::*;

verus! {

/// The state of a session: the identity cache, the channel registry, the
/// invitations, the current user, the lookups under way and the phase of
/// the login.
pub struct ChatState {
    identities: IdentityCache,
    channels: Vec<Channel>,
    past_invites: Vec<Channel>,
    current_user: u32,
    pending_lookups: StringHashSet,
    phase: LoginPhase,
}

impl View for ChatState {
    type V = ChatModel;

    closed spec fn view(&self) -> ChatModel {
        ChatModel {
            identities: self.identities@,
            channels: self.channels.deep_view(),
            past_invites: self.past_invites.deep_view(),
            current_user: self.current_user,
            pending_lookups: self.pending_lookups@,
            phase: self.phase,
        }
    }
}

impl ChatState {
    /// The invariant of the state: see [`ChatModel::wf`].
    pub open spec fn wf(&self) -> bool {
        self@.wf()
    }

    /// The state in which a session starts.
    pub fn new() -> (state: Self)
        ensures
            state.wf(),
            state@ == ChatModel::initial(),
    {
        let state = ChatState {
            identities: IdentityCache::new(),
            channels: Vec::new(),
            past_invites: Vec::new(),
            current_user: 0,
            pending_lookups: StringHashSet::new(),
            phase: LoginPhase::AwaitingSeed,
        };
        state
    }

    /// The registered channels, in order.
    pub fn channels(&self) -> (channels: &Vec<Channel>)
        ensures
            channels.deep_view() == self@.channels,
    {
        &self.channels
    }

    /// The invitations received, oldest first.
    pub fn past_invites(&self) -> (invites: &Vec<Channel>)
        ensures
            invites.deep_view() == self@.past_invites,
    {
        &self.past_invites
    }

    /// The id of the character that is played.
    pub fn current_user(&self) -> (id: u32)
        ensures
            id == self@.current_user,
    {
        self.current_user
    }

    /// How far the login has come.
    pub fn phase(&self) -> (phase: LoginPhase)
        ensures
            phase == self@.phase,
    {
        self.phase
    }

    /// Whether a lookup of `name` is under way.
    pub fn is_pending(&self, name: &str) -> (pending: bool)
        ensures
            pending == self@.pending_lookups.contains(name@),
    {
        self.pending_lookups.contains(name)
    }

    /// The name of the character with the id `id`, if it is known.
    pub fn name_of(&self, id: u32) -> (name: Option<&String>)
        ensures
            name.deep_view() == crate::identity::name_of(self@.identities, id),
    {
        self.identities.name_of(id)
    }

    /// Registers `channel`: a tell channel only if its peer has none yet,
    /// any other channel always, at the end.
    pub fn register_channel(&mut self, channel: Channel)
        requires
            old(self).wf(),
        ensures
            final(self).wf(),
            final(self)@ == old(self)@.register(channel@),
    {
        register(&mut self.channels, channel);
    }

    /// Takes in a channel that the server announced: a group only if none
    /// of its id is registered yet, so that the first entry and its name
    /// stay; anything else as [`ChatState::register_channel`] does.
    pub fn announce_channel(&mut self, channel: Channel)
        requires
            old(self).wf(),
        ensures
            final(self).wf(),
            final(self)@ == old(self)@.announce(channel@),
    {
        announce(&mut self.channels, channel);
    }

    /// Notes an invitation to `channel`, after those noted before.
    pub fn register_invite(&mut self, channel: Channel)
        requires
            old(self).wf(),
        ensures
            final(self).wf(),
            final(self)@ == old(self)@.note_invite(channel@),
    {
        self.past_invites.push(channel);
    }

    /// The channel with its display name, if that name is known.
    pub fn resolve_channel(&self, channel: &Channel) -> (resolved: Option<ResolvedChannel>)
        ensures
            resolved.deep_view() == self@.resolve_channel(channel@),
    {
        match channel {
            Channel::Group(group) => match &group.name {
                Some(name) => Some(
                    ResolvedChannel { id: group.id, name: name.clone(), kind: ChannelType::Group },
                ),
                None => match find_group(&self.channels, group.id) {
                    Some(first) => match &first.name {
                        Some(name) => Some(
                            ResolvedChannel {
                                id: group.id,
                                name: name.clone(),
                                kind: ChannelType::Group,
                            },
                        ),
                        None => None,
                    },
                    None => None,
                },
            },
            Channel::PrivateChannel(owner) => match self.identities.name_of(*owner) {
                Some(name) => Some(
                    ResolvedChannel {
                        id: *owner,
                        name: name.clone(),
                        kind: ChannelType::PrivateChannel,
                    },
                ),
                None => None,
            },
            Channel::Tell(peer) => match self.identities.name_of(*peer) {
                Some(name) => Some(
                    ResolvedChannel { id: *peer, name: name.clone(), kind: ChannelType::Tell },
                ),
                None => None,
            },
            Channel::Vicinity => Some(
                ResolvedChannel {
                    id: 0,
                    name: String::from_str("Vicinity"),
                    kind: ChannelType::Vicinity,
                },
            ),
        }
    }

    /// The message with the names of its sender and its channel, if both
    /// are known.
    pub fn resolve_message(&self, message: &Message) -> (resolved: Option<ResolvedMessage>)
        ensures
            resolved.deep_view() == self@.resolve_message(message@),
    {
        let channel = match self.resolve_channel(&message.channel) {
            Some(channel) => channel,
            None => {
                return None;
            },
        };
        let sender = match message.sender {
            None => None,
            Some(id) => match self.identities.name_of(id) {
                Some(name) => Some(name.clone()),
                None => {
                    return None;
                },
            },
        };
        Some(ResolvedMessage { sender, channel, text: message.text.clone() })
    }
}

impl ChatState {
    /// Every registered channel with its display name, in order: what the
    /// channel switcher shows. Fails where a channel has no known name.
    pub fn list_channels(&self) -> (listed: Result<Vec<ResolvedChannel>, Fatal>)
        ensures
            match self@.list_channels() {
                Some(all) => listed is Ok && listed->Ok_0.deep_view() == all,
                None => listed is Err && listed->Err_0@ == crate::event::FatalView::Unresolvable,
            },
    {
        let mut listed: Vec<ResolvedChannel> = Vec::new();
        let mut i: usize = 0;
        while i < self.channels.len()
            invariant
                i <= self.channels@.len(),
                listed@.len() == i,
                forall|k: int|
                    0 <= k < i ==> self@.resolve_channel(#[trigger] self@.channels[k]) == Some(
                        listed@[k]@,
                    ),
            decreases self.channels@.len() - i,
        {
            assert(self@.channels[i as int] == self.channels@[i as int]@);
            match self.resolve_channel(&self.channels[i]) {
                Some(resolved) => {
                    listed.push(resolved);
                },
                None => {
                    return Err(Fatal::Unresolvable);
                },
            }
            i = i + 1;
        }
        Ok(listed)
    }

    /// Begins a lookup of the name `user`. Where the answer is
    /// [`Lookup::Requested`], the caller sends the lookup request, and in
    /// any case but [`Lookup::Known`] it waits to be woken, then asks
    /// [`ChatState::lookup_outcome`].
    pub fn lookup_user(&mut self, user: &str) -> (begun: Lookup)
        requires
            old(self).wf(),
        ensures
            final(self).wf(),
            final(self)@ == old(self)@.lookup(user@).0,
            begun == old(self)@.lookup(user@).1,
    {
        match self.identities.id_of(user) {
            Some(id) => Lookup::Known(id),
            None => {
                if self.pending_lookups.contains(user) {
                    Lookup::Joined
                } else {
                    self.pending_lookups.insert(String::from_str(user));
                    Lookup::Requested
                }
            },
        }
    }

    /// What a caller who has waited for the lookup of `user` comes away
    /// with: the id, if the name is known by now.
    pub fn lookup_outcome(&self, user: &str) -> (id: Option<u32>)
        requires
            self.wf(),
        ensures
            id == self@.lookup_outcome(user@),
    {
        self.identities.id_of(user)
    }

    /// The request by which the character that a lookup came to is
    /// invited; none where it came to nobody.
    pub fn invite(&self, target: Option<u32>) -> (request: Option<Outbound>)
        ensures
            request.deep_view() == invite_request(target),
    {
        match target {
            Some(id) => Some(Outbound::Invite(id)),
            None => None,
        }
    }

    /// The request by which the character that a lookup came to is
    /// kicked; none where it came to nobody.
    pub fn kick(&self, target: Option<u32>) -> (request: Option<Outbound>)
        ensures
            request.deep_view() == kick_request(target),
    {
        match target {
            Some(id) => Some(Outbound::Kick(id)),
            None => None,
        }
    }

    /// The request by which the private channel of the character that a
    /// lookup came to is left; none where it came to nobody.
    pub fn leave(&self, target: Option<u32>) -> (request: Option<Outbound>)
        ensures
            request.deep_view() == leave_request(target),
    {
        match target {
            Some(id) => Some(Outbound::Leave(Channel::PrivateChannel(id))),
            None => None,
        }
    }

    /// Sends `text` to `channel` in the name of the current user. The
    /// vicinity is no place to send to.
    pub fn route(&mut self, channel: Channel, text: String) -> (outcome: Outcome)
        requires
            old(self).wf(),
            channel@ !is Vicinity,
        ensures
            final(self).wf(),
            final(self)@ == old(self)@.route(channel@, text@).0,
            outcome_view(outcome) == old(self)@.route(channel@, text@).1,
    {
        proof {
            reveal_strlit("\0");
            assert("\0"@ =~= no_tag());
        }
        let message = Message {
            sender: Some(self.current_user),
            channel,
            text,
            send_tag: String::from_str("\0"),
        };
        match &message.channel {
            Channel::Vicinity => unreached(),
            Channel::Group(_) => {
                let effects = vec![Effect::Send(Outbound::GroupMessage(message))];
                assert(effects.deep_view() =~= old(self)@.route(channel@, text@).1->Ok_0);
                Ok(effects)
            },
            Channel::PrivateChannel(_) => {
                let effects = vec![Effect::Send(Outbound::PrivateChannelMessage(message))];
                assert(effects.deep_view() =~= old(self)@.route(channel@, text@).1->Ok_0);
                Ok(effects)
            },
            Channel::Tell(peer) => {
                let resolved = match self.resolve_message(&message) {
                    Some(resolved) => resolved,
                    None => {
                        return Err(Fatal::Unresolvable);
                    },
                };
                self.register_channel(Channel::Tell(*peer));
                let effects = vec![
                    Effect::Update(UiUpdate::Message(resolved)),
                    Effect::Send(Outbound::Tell(message)),
                ];
                assert(effects.deep_view() =~= old(self)@.route(channel@, text@).1->Ok_0);
                Ok(effects)
            },
        }
    }

    /// Tells `text` to the character that a lookup came to.
    pub fn send_tell(&mut self, target: Option<u32>, text: String) -> (outcome: Outcome)
        requires
            old(self).wf(),
        ensures
            final(self).wf(),
            final(self)@ == old(self)@.send_tell(target, text@).0,
            outcome_view(outcome) == old(self)@.send_tell(target, text@).1,
    {
        match target {
            Some(peer) => self.route(Channel::Tell(peer), text),
            None => {
                let effects: Vec<Effect> = Vec::new();
                assert(effects.deep_view() =~= Seq::<crate::event::EffectView>::empty());
                Ok(effects)
            },
        }
    }

    /// Whether the user can send to `channel`: it is not the vicinity, and
    /// a group is in the registry.
    pub fn can_send(&self, channel: &ResolvedChannel) -> (possible: bool)
        ensures
            possible == self@.can_send(channel@),
    {
        match channel.kind {
            ChannelType::Vicinity => false,
            ChannelType::Group => find_group(&self.channels, channel.id).is_some(),
            _ => true,
        }
    }

    /// Sends `text` to the channel that the user has chosen, which is one
    /// that can be sent to.
    pub fn send_message(&mut self, channel: &ResolvedChannel, text: String) -> (outcome: Outcome)
        requires
            old(self).wf(),
            old(self)@.can_send(channel@),
        ensures
            final(self).wf(),
            final(self)@ == old(self)@.send_message(channel@, text@).0,
            outcome_view(outcome) == old(self)@.send_message(channel@, text@).1,
    {
        let to = match channel.kind {
            ChannelType::Vicinity => unreached(),
            ChannelType::Tell => Channel::Tell(channel.id),
            ChannelType::PrivateChannel => Channel::PrivateChannel(channel.id),
            ChannelType::Group => match find_group(&self.channels, channel.id) {
                Some(group) => Channel::Group(group.clone()),
                None => unreached(),
            },
        };
        self.route(to, text)
    }
}

/// The first character named `name` in the list.
fn find_character<'a>(characters: &'a Vec<Character>, name: &str) -> (found: Option<&'a Character>)
    ensures
        found.deep_view() == first_character(characters.deep_view(), name@, 0),
{
    let mut i: usize = 0;
    while i < characters.len()
        invariant
            i <= characters@.len(),
            first_character(characters.deep_view(), name@, 0) == first_character(
                characters.deep_view(),
                name@,
                i as int,
            ),
        decreases characters@.len() - i,
    {
        if same_text(characters[i].name.as_str(), name) {
            return Some(&characters[i]);
        }
        i = i + 1;
    }
    None
}

impl ChatState {
    /// Takes in one event from the network: changes the state as the event
    /// asks, and says what is to be done about it, or why the session ends.
    /// The state is left as it was where the session ends.
    pub fn handle_event(&mut self, event: Event, config: &Config) -> (outcome: Outcome)
        requires
            old(self).wf(),
        ensures
            final(self).wf(),
            final(self)@ == old(self)@.handle(event@, config@).0,
            outcome_view(outcome) == old(self)@.handle(event@, config@).1,
    {
        let ghost expected = old(self)@.handle(event@, config@);
        let mut effects: Vec<Effect> = Vec::new();
        match event {
            Event::SeedIssued(seed) => {
                self.phase = LoginPhase::AwaitingCharacterList;
                effects.push(
                    Effect::Send(
                        Outbound::Login {
                            user_name: config.user_name.clone(),
                            password: config.password.clone(),
                            seed,
                        },
                    ),
                );
            },
            Event::CharacterList(characters) => {
                match find_character(&characters, config.character_name.as_str()) {
                    Some(character) => {
                        self.current_user = character.id;
                        self.phase = LoginPhase::AwaitingLoginConfirmation;
                        effects.push(Effect::Send(Outbound::SelectCharacter(character.id)));
                    },
                    None => {
                        return Err(Fatal::CharacterMissing);
                    },
                }
            },
            Event::LoginConfirmed => {
                self.phase = LoginPhase::Ready;
            },
            Event::LoginError(reason) => {
                return Err(Fatal::LoginRejected(reason));
            },
            Event::IdentityAnnounced { id, name } => {
                self.identities.insert(id, name);
            },
            Event::MessageReceived(message) => {
                match self.resolve_message(&message) {
                    Some(resolved) => {
                        effects.push(Effect::Update(UiUpdate::Message(resolved)));
                        match message.channel {
                            Channel::Tell(peer) => {
                                self.register_channel(Channel::Tell(peer));
                            },
                            _ => {},
                        }
                    },
                    None => {
                        return Err(Fatal::Unresolvable);
                    },
                }
            },
            Event::GroupAnnounced(channel) => {
                self.announce_channel(channel);
            },
            Event::InviteReceived(channel) => {
                self.register_invite(channel);
            },
            Event::LookupResult { name, id, found } => {
                if found {
                    self.identities.insert(id, name.clone());
                    self.register_channel(Channel::Tell(id));
                }
                if self.pending_lookups.remove(name.as_str()) {
                    effects.push(Effect::Wake(name));
                }
            },
            Event::Other => {},
        }
        assert(effects.deep_view() =~= expected.1->Ok_0);
        Ok(effects)
    }
}

/// A question about the state, asked from outside the engine.
#[derive(Clone, Copy, Debug, PartialEq, Eq, Structural)]
pub enum StateQuery {
    /// Which channels are there to switch to?
    Channels,
}

/// What the user asks for: a command with a name in it, or a text for the
/// channel that is open.
#[derive(Debug, PartialEq, Eq)]
pub enum Command {
    Invite(String),
    Kick(String),
    Leave(String),
    Tell(String, String),
    Message(ResolvedChannel, String),
}

pub enum CommandView {
    Invite(Seq<char>),
    Kick(Seq<char>),
    Leave(Seq<char>),
    Tell(Seq<char>, Seq<char>),
    Message(crate::resolved::ResolvedChannelView, Seq<char>),
}

impl DeepView for Command {
    type V = CommandView;

    open spec fn deep_view(&self) -> CommandView {
        match self {
            Command::Invite(user) => CommandView::Invite(user@),
            Command::Kick(user) => CommandView::Kick(user@),
            Command::Leave(user) => CommandView::Leave(user@),
            Command::Tell(user, text) => CommandView::Tell(user@, text@),
            Command::Message(channel, text) => CommandView::Message(channel@, text@),
        }
    }
}

impl View for Command {
    type V = CommandView;

    open spec fn view(&self) -> CommandView {
        self.deep_view()
    }
}

impl CommandView {
    /// The command as the engine takes it, for a command as typed.
    pub open spec fn of(typed: crate::command::CommandView) -> CommandView {
        match typed {
            crate::command::CommandView::Invite(user) => CommandView::Invite(user),
            crate::command::CommandView::Kick(user) => CommandView::Kick(user),
            crate::command::CommandView::Leave(user) => CommandView::Leave(user),
            crate::command::CommandView::Tell(user, text) => CommandView::Tell(user, text),
        }
    }

    /// The name that has to be looked up before the command can be carried
    /// out, if it holds one.
    pub open spec fn user(self) -> Option<Seq<char>> {
        match self {
            CommandView::Invite(user) => Some(user),
            CommandView::Kick(user) => Some(user),
            CommandView::Leave(user) => Some(user),
            CommandView::Tell(user, _) => Some(user),
            CommandView::Message(_, _) => None,
        }
    }
}

impl From<crate::command::Command> for Command {
    fn from(typed: crate::command::Command) -> (command: Self)
        ensures
            command@ == CommandView::of(typed@),
    {
        match typed {
            crate::command::Command::Invite(user) => Command::Invite(user),
            crate::command::Command::Kick(user) => Command::Kick(user),
            crate::command::Command::Leave(user) => Command::Leave(user),
            crate::command::Command::Tell(user, text) => Command::Tell(user, text),
        }
    }
}

impl vstd::std_specs::convert::FromSpecImpl<crate::command::Command> for Command {
    open spec fn obeys_from_spec() -> bool {
        true
    }

    open spec fn from_spec(typed: crate::command::Command) -> Self {
        match typed {
            crate::command::Command::Invite(user) => Command::Invite(user),
            crate::command::Command::Kick(user) => Command::Kick(user),
            crate::command::Command::Leave(user) => Command::Leave(user),
            crate::command::Command::Tell(user, text) => Command::Tell(user, text),
        }
    }
}

impl Command {
    /// The name that has to be looked up before the command can be carried
    /// out, if it holds one.
    pub fn user(&self) -> (user: Option<&String>)
        ensures
            user.deep_view() == self@.user(),
    {
        match self {
            Command::Invite(user) => Some(user),
            Command::Kick(user) => Some(user),
            Command::Leave(user) => Some(user),
            Command::Tell(user, _) => Some(user),
            Command::Message(_, _) => None,
        }
    }
}

/// The effects that sending `request`, if there is one, comes to.
pub open spec fn sending(request: Option<crate::event::OutboundView>) -> Seq<
    crate::event::EffectView,
> {
    match request {
        Some(r) => seq![crate::event::EffectView::Send(r)],
        None => Seq::empty(),
    }
}

impl ChatModel {
    /// Whether `command` can be carried out: a text for a channel needs a
    /// channel that can be sent to.
    pub open spec fn can_execute(self, command: CommandView) -> bool {
        command matches CommandView::Message(channel, _) ==> self.can_send(channel)
    }

    /// Carrying out `command`, once the lookup of the name in it, where it
    /// holds one, has come to `target`.
    pub open spec fn execute(self, command: CommandView, target: Option<u32>) -> (
        ChatModel,
        crate::event::OutcomeView,
    )
        recommends
            self.can_execute(command),
    {
        match command {
            CommandView::Invite(_) => (self, Ok(sending(invite_request(target)))),
            CommandView::Kick(_) => (self, Ok(sending(kick_request(target)))),
            CommandView::Leave(_) => (self, Ok(sending(leave_request(target)))),
            CommandView::Tell(_, text) => self.send_tell(target, text),
            CommandView::Message(channel, text) => self.send_message(channel, text),
        }
    }
}

/// The one effect of sending `request`, or none.
fn send_if_any(request: Option<Outbound>) -> (effects: Vec<Effect>)
    ensures
        effects.deep_view() == sending(request.deep_view()),
{
    let mut effects: Vec<Effect> = Vec::new();
    match request {
        Some(r) => {
            effects.push(Effect::Send(r));
        },
        None => {
        },
    }
    effects
}

impl ChatState {
    /// Carries out `command`, once the lookup of the name in it, where it
    /// holds one, has come to `target`. A text for a channel needs a
    /// channel that can be sent to.
    pub fn execute(&mut self, command: Command, target: Option<u32>) -> (outcome: Outcome)
        requires
            old(self).wf(),
            old(self)@.can_execute(command@),
        ensures
            final(self).wf(),
            final(self)@ == old(self)@.execute(command@, target).0,
            outcome_view(outcome) == old(self)@.execute(command@, target).1,
    {
        match command {
            Command::Invite(_) => Ok(send_if_any(self.invite(target))),
            Command::Kick(_) => Ok(send_if_any(self.kick(target))),
            Command::Leave(_) => Ok(send_if_any(self.leave(target))),
            Command::Tell(_, text) => self.send_tell(target, text),
            Command::Message(channel, text) => self.send_message(&channel, text),
        }
    }

    /// Answers a question about the state.
    pub fn answer(&self, query: StateQuery) -> (listed: Result<Vec<ResolvedChannel>, Fatal>)
        ensures
            match self@.list_channels() {
                Some(all) => listed is Ok && listed->Ok_0.deep_view() == all,
                None => listed is Err && listed->Err_0@ == crate::event::FatalView::Unresolvable,
            },
    {
        match query {
            StateQuery::Channels => self.list_channels(),
        }
    }
}

impl ResolvedChannel {
    /// The channel with the name under which `state` knows it.
    pub fn new(state: &ChatState, channel: &Channel) -> (resolved: Self)
        requires
            state@.resolve_channel(channel@) is Some,
        ensures
            Some(resolved@) == state@.resolve_channel(channel@),
    {
        state.resolve_channel(channel).unwrap()
    }
}

impl ResolvedMessage {
    /// The message with the names under which `state` knows its sender
    /// and its channel.
    pub fn new(state: &ChatState, message: &Message) -> (resolved: Self)
        requires
            state@.resolve_message(message@) is Some,
        ensures
            Some(resolved@) == state@.resolve_message(message@),
    {
        state.resolve_message(message).unwrap()
    }
}

} // verus!
