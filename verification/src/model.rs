//! The state of the engine as a mathematical value, and each of its
//! operations as a function on that value.

use crate::channel::{
    announced, first_group, registered, tells_unique, ChannelView, GroupView, MessageView,
};
use crate::config::ConfigView;
use crate::event::{
    CharacterView, EffectView, EventView, FatalView, LoginPhase, Lookup, OutboundView, OutcomeView,
};
use crate::identity::{id_of, name_of, one_to_one, with_pair};
use crate::resolved::{ChannelType, ResolvedChannelView, ResolvedMessageView, UiUpdateView};
use vstd::prelude::*;

verus! {

/// What the engine knows at one moment.
#[verifier::ext_equal]
pub struct ChatModel {
    /// The name of each known character, by id.
    pub identities: Map<u32, Seq<char>>,
    /// The known channels, in the order in which they were registered.
    pub channels: Seq<ChannelView>,
    /// The invitations received, oldest first.
    pub past_invites: Seq<ChannelView>,
    /// The id of the character that is played; 0 before one is chosen.
    pub current_user: u32,
    /// The names whose lookup is under way.
    pub pending_lookups: Set<Seq<char>>,
    /// How far the login has come.
    pub phase: LoginPhase,
}

/// The tag of a message that carries none: the one character with code 0.
pub open spec fn no_tag() -> Seq<char> {
    seq!['\0']
}

/// The name under which the vicinity is shown.
pub open spec fn vicinity_name() -> Seq<char> {
    "Vicinity"@
}

/// The first character named `name` at or after index `from`.
pub open spec fn first_character(
    characters: Seq<CharacterView>,
    name: Seq<char>,
    from: int,
) -> Option<CharacterView>
    decreases characters.len() - from,
{
    if from < 0 || from >= characters.len() {
        None
    } else if characters[from].name == name {
        Some(characters[from])
    } else {
        first_character(characters, name, from + 1)
    }
}

impl ChatModel {
    /// The identity table is one to one, and no tell channel is registered
    /// twice.
    pub open spec fn wf(self) -> bool {
        one_to_one(self.identities) && tells_unique(self.channels)
    }

    /// The state in which a session starts.
    pub open spec fn initial() -> ChatModel {
        ChatModel {
            identities: Map::empty(),
            channels: Seq::empty(),
            past_invites: Seq::empty(),
            current_user: 0,
            pending_lookups: Set::empty(),
            phase: LoginPhase::AwaitingSeed,
        }
    }

    /// The state after the identity `(id, name)` was learnt.
    pub open spec fn learn(self, id: u32, name: Seq<char>) -> ChatModel {
        ChatModel { identities: with_pair(self.identities, id, name), ..self }
    }

    /// The state after `channel` was registered.
    pub open spec fn register(self, channel: ChannelView) -> ChatModel {
        ChatModel { channels: registered(self.channels, channel), ..self }
    }

    /// The state after the server announced `channel`.
    pub open spec fn announce(self, channel: ChannelView) -> ChatModel {
        ChatModel { channels: announced(self.channels, channel), ..self }
    }

    /// The state after an invitation to `channel` was noted.
    pub open spec fn note_invite(self, channel: ChannelView) -> ChatModel {
        ChatModel { past_invites: self.past_invites.push(channel), ..self }
    }

    /// The channel with its display name. A group shows the name it
    /// carries; one that carries none shows the name of the first group of
    /// its id in the registry. A private channel and a tell show the name
    /// of their character. None where that name is not known.
    pub open spec fn resolve_channel(self, channel: ChannelView) -> Option<ResolvedChannelView> {
        match channel {
            ChannelView::Group(group) => match group.name {
                Some(name) => Some(
                    ResolvedChannelView { id: group.id, name, kind: ChannelType::Group },
                ),
                None => match first_group(self.channels, group.id, 0) {
                    Some(GroupView { id, name: Some(name) }) => Some(
                        ResolvedChannelView { id: group.id, name, kind: ChannelType::Group },
                    ),
                    _ => None,
                },
            },
            ChannelView::PrivateChannel(owner) => match name_of(self.identities, owner) {
                Some(name) => Some(
                    ResolvedChannelView { id: owner, name, kind: ChannelType::PrivateChannel },
                ),
                None => None,
            },
            ChannelView::Tell(peer) => match name_of(self.identities, peer) {
                Some(name) => Some(ResolvedChannelView { id: peer, name, kind: ChannelType::Tell }),
                None => None,
            },
            ChannelView::Vicinity => Some(
                ResolvedChannelView { id: 0, name: vicinity_name(), kind: ChannelType::Vicinity },
            ),
        }
    }

    /// The message with the names of its sender and its channel. None
    /// where either is not known.
    pub open spec fn resolve_message(self, message: MessageView) -> Option<ResolvedMessageView> {
        match self.resolve_channel(message.channel) {
            None => None,
            Some(channel) => match message.sender {
                None => Some(ResolvedMessageView { sender: None, channel, text: message.text }),
                Some(id) => match name_of(self.identities, id) {
                    Some(name) => Some(
                        ResolvedMessageView { sender: Some(name), channel, text: message.text },
                    ),
                    None => None,
                },
            },
        }
    }

    /// Every registered channel with its display name, in order. None
    /// where one of them cannot be resolved.
    pub open spec fn list_channels(self) -> Option<Seq<ResolvedChannelView>> {
        if forall|i: int|
            0 <= i < self.channels.len() ==> self.resolve_channel(#[trigger] self.channels[i])
                is Some {
            Some(
                Seq::new(
                    self.channels.len(),
                    |i: int| self.resolve_channel(self.channels[i]).unwrap(),
                ),
            )
        } else {
            None
        }
    }

    /// How a lookup of `name` begins, and the state it leaves. A known
    /// name changes nothing. An unknown one is pending afterwards; the
    /// request goes out only if it was not pending before.
    pub open spec fn lookup(self, name: Seq<char>) -> (ChatModel, Lookup) {
        match id_of(self.identities, name) {
            Some(id) => (self, Lookup::Known(id)),
            None => if self.pending_lookups.contains(name) {
                (self, Lookup::Joined)
            } else {
                (
                    ChatModel { pending_lookups: self.pending_lookups.insert(name), ..self },
                    Lookup::Requested,
                )
            },
        }
    }

    /// What a caller who waited for the lookup of `name` comes away with.
    pub open spec fn lookup_outcome(self, name: Seq<char>) -> Option<u32> {
        id_of(self.identities, name)
    }

    /// The message that the current user sends to `channel`.
    pub open spec fn outgoing(self, channel: ChannelView, text: Seq<char>) -> MessageView {
        MessageView { sender: Some(self.current_user), channel, text, send_tag: no_tag() }
    }

    /// Sending `text` to `channel`: the state afterwards and the effects.
    /// A group and a private channel get their packet. A tell is first
    /// shown to the user, as the server will not echo it, then its channel
    /// is registered, then the packet goes out. The vicinity is no place to
    /// send to: only the server speaks there.
    pub open spec fn route(self, channel: ChannelView, text: Seq<char>) -> (ChatModel, OutcomeView)
        recommends
            channel !is Vicinity,
    {
        let message = self.outgoing(channel, text);
        match channel {
            ChannelView::Vicinity => (self, Ok(Seq::empty())),
            ChannelView::Group(_) => (
                self,
                Ok(seq![EffectView::Send(OutboundView::GroupMessage(message))]),
            ),
            ChannelView::PrivateChannel(_) => (
                self,
                Ok(seq![EffectView::Send(OutboundView::PrivateChannelMessage(message))]),
            ),
            ChannelView::Tell(_) => match self.resolve_message(message) {
                None => (self, Err(FatalView::Unresolvable)),
                Some(resolved) => (
                    self.register(channel),
                    Ok(
                        seq![
                            EffectView::Update(UiUpdateView::Message(resolved)),
                            EffectView::Send(OutboundView::Tell(message)),
                        ],
                    ),
                ),
            },
        }
    }

    /// Telling `text` to the character that a lookup came to. Nothing
    /// happens where it came to nobody.
    pub open spec fn send_tell(self, target: Option<u32>, text: Seq<char>) -> (
        ChatModel,
        OutcomeView,
    ) {
        match target {
            None => (self, Ok(Seq::empty())),
            Some(peer) => self.route(ChannelView::Tell(peer), text),
        }
    }

    /// The channel that a resolved channel stands for. A group is the
    /// first of its id in the registry; none, where there is no such.
    pub open spec fn target(self, channel: ResolvedChannelView) -> Option<ChannelView> {
        match channel.kind {
            ChannelType::Vicinity => Some(ChannelView::Vicinity),
            ChannelType::Tell => Some(ChannelView::Tell(channel.id)),
            ChannelType::PrivateChannel => Some(ChannelView::PrivateChannel(channel.id)),
            ChannelType::Group => match first_group(self.channels, channel.id, 0) {
                Some(group) => Some(ChannelView::Group(group)),
                None => None,
            },
        }
    }

    /// Whether the user can send to `channel`: it is not the vicinity,
    /// and a group is in the registry.
    pub open spec fn can_send(self, channel: ResolvedChannelView) -> bool {
        channel.kind != ChannelType::Vicinity && self.target(channel) is Some
    }

    /// Sending `text` to the channel that the user has chosen.
    pub open spec fn send_message(self, channel: ResolvedChannelView, text: Seq<char>) -> (
        ChatModel,
        OutcomeView,
    )
        recommends
            self.can_send(channel),
    {
        match self.target(channel) {
            None => (self, Ok(Seq::empty())),
            Some(to) => self.route(to, text),
        }
    }

    /// A lookup of `name` has been answered: the state afterwards and the
    /// effects. A found identity is learnt and its tell channel registered.
    /// Found or not, the name is no longer pending, and those who waited
    /// are woken.
    pub open spec fn lookup_result(self, name: Seq<char>, id: u32, found: bool) -> (
        ChatModel,
        OutcomeView,
    ) {
        let known = if found {
            self.learn(id, name).register(ChannelView::Tell(id))
        } else {
            self
        };
        if known.pending_lookups.contains(name) {
            (
                ChatModel { pending_lookups: known.pending_lookups.remove(name), ..known },
                Ok(seq![EffectView::Wake(name)]),
            )
        } else {
            (known, Ok(Seq::empty()))
        }
    }

    /// A message has arrived: it is shown with its names, and the channel
    /// of a tell is registered. A message whose names are not known ends
    /// the session.
    pub open spec fn message_received(self, message: MessageView) -> (ChatModel, OutcomeView) {
        match self.resolve_message(message) {
            None => (self, Err(FatalView::Unresolvable)),
            Some(resolved) => (
                if message.channel is Tell {
                    self.register(message.channel)
                } else {
                    self
                },
                Ok(seq![EffectView::Update(UiUpdateView::Message(resolved))]),
            ),
        }
    }

    /// The list of characters has arrived: the configured one is chosen,
    /// the first of that name. Without it the session ends.
    pub open spec fn character_list(self, characters: Seq<CharacterView>, name: Seq<char>) -> (
        ChatModel,
        OutcomeView,
    ) {
        match first_character(characters, name, 0) {
            None => (self, Err(FatalView::CharacterMissing)),
            Some(character) => (
                ChatModel {
                    current_user: character.id,
                    phase: LoginPhase::AwaitingLoginConfirmation,
                    ..self
                },
                Ok(seq![EffectView::Send(OutboundView::SelectCharacter(character.id))]),
            ),
        }
    }

    /// The state after `event`, and what is to be done about it.
    pub open spec fn handle(self, event: EventView, config: ConfigView) -> (ChatModel, OutcomeView) {
        match event {
            EventView::SeedIssued(seed) => (
                ChatModel { phase: LoginPhase::AwaitingCharacterList, ..self },
                Ok(
                    seq![
                        EffectView::Send(
                            OutboundView::Login {
                                user_name: config.user_name,
                                password: config.password,
                                seed,
                            },
                        ),
                    ],
                ),
            ),
            EventView::CharacterList(characters) => self.character_list(
                characters,
                config.character_name,
            ),
            EventView::LoginConfirmed => (
                ChatModel { phase: LoginPhase::Ready, ..self },
                Ok(Seq::empty()),
            ),
            EventView::LoginError(reason) => (self, Err(FatalView::LoginRejected(reason))),
            EventView::IdentityAnnounced { id, name } => (self.learn(id, name), Ok(Seq::empty())),
            EventView::MessageReceived(message) => self.message_received(message),
            EventView::GroupAnnounced(channel) => (self.announce(channel), Ok(Seq::empty())),
            EventView::InviteReceived(channel) => (self.note_invite(channel), Ok(Seq::empty())),
            EventView::LookupResult { name, id, found } => self.lookup_result(name, id, found),
            EventView::Other => (self, Ok(Seq::empty())),
        }
    }
}

/// The request that an invitation comes to, once the lookup of the name
/// has come to `target`: none where it came to nobody.
pub open spec fn invite_request(target: Option<u32>) -> Option<OutboundView> {
    match target {
        Some(id) => Some(OutboundView::Invite(id)),
        None => None,
    }
}

/// The request that a kick comes to.
pub open spec fn kick_request(target: Option<u32>) -> Option<OutboundView> {
    match target {
        Some(id) => Some(OutboundView::Kick(id)),
        None => None,
    }
}

/// The request that leaving comes to: to part from the private channel of
/// the character.
pub open spec fn leave_request(target: Option<u32>) -> Option<OutboundView> {
    match target {
        Some(id) => Some(OutboundView::Leave(ChannelView::PrivateChannel(id))),
        None => None,
    }
}

} // verus!
