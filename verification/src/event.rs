//! What comes in from the network, and what the engine asks to be done.

use crate::channel::{Channel, ChannelView, Message, MessageView};
use crate::resolved::{UiUpdate, UiUpdateView};
use vstd::prelude::*;
use vstd::string::*;

verus! {

/// How far the login handshake has come.
#[derive(Clone, Copy, Debug, PartialEq, Eq, Structural)]
pub enum LoginPhase {
    AwaitingSeed,
    AwaitingCharacterList,
    AwaitingLoginConfirmation,
    Ready,
}

/// One character of the account, as the server lists it.
#[derive(Debug, PartialEq, Eq)]
pub struct Character {
    pub id: u32,
    pub name: String,
}

pub struct CharacterView {
    pub id: u32,
    pub name: Seq<char>,
}

impl DeepView for Character {
    type V = CharacterView;

    open spec fn deep_view(&self) -> CharacterView {
        CharacterView { id: self.id, name: self.name@ }
    }
}

impl View for Character {
    type V = CharacterView;

    open spec fn view(&self) -> CharacterView {
        self.deep_view()
    }
}

/// An event read from the network.
#[derive(Debug, PartialEq, Eq)]
pub enum Event {
    /// The server issued the seed of the login handshake.
    SeedIssued(String),
    /// The server listed the characters of the account.
    CharacterList(Vec<Character>),
    /// The server accepted the login.
    LoginConfirmed,
    /// The server refused the login, with its reason.
    LoginError(String),
    /// The server told the name of a character.
    IdentityAnnounced { id: u32, name: String },
    /// A message arrived, in whatever framing.
    MessageReceived(Message),
    /// The server announced a group that the character is in.
    GroupAnnounced(Channel),
    /// An invitation to a private channel arrived.
    InviteReceived(Channel),
    /// The server answered a lookup of `name`: its id, if `found`.
    LookupResult { name: String, id: u32, found: bool },
    /// Anything else. The engine takes no note of it.
    Other,
}

pub enum EventView {
    SeedIssued(Seq<char>),
    CharacterList(Seq<CharacterView>),
    LoginConfirmed,
    LoginError(Seq<char>),
    IdentityAnnounced { id: u32, name: Seq<char> },
    MessageReceived(MessageView),
    GroupAnnounced(ChannelView),
    InviteReceived(ChannelView),
    LookupResult { name: Seq<char>, id: u32, found: bool },
    Other,
}

impl DeepView for Event {
    type V = EventView;

    open spec fn deep_view(&self) -> EventView {
        match self {
            Event::SeedIssued(seed) => EventView::SeedIssued(seed@),
            Event::CharacterList(characters) => EventView::CharacterList(characters.deep_view()),
            Event::LoginConfirmed => EventView::LoginConfirmed,
            Event::LoginError(message) => EventView::LoginError(message@),
            Event::IdentityAnnounced { id, name } => EventView::IdentityAnnounced {
                id: *id,
                name: name@,
            },
            Event::MessageReceived(message) => EventView::MessageReceived(message@),
            Event::GroupAnnounced(channel) => EventView::GroupAnnounced(channel@),
            Event::InviteReceived(channel) => EventView::InviteReceived(channel@),
            Event::LookupResult { name, id, found } => EventView::LookupResult {
                name: name@,
                id: *id,
                found: *found,
            },
            Event::Other => EventView::Other,
        }
    }
}

impl View for Event {
    type V = EventView;

    open spec fn view(&self) -> EventView {
        self.deep_view()
    }
}

/// A request to the server.
#[derive(Debug, PartialEq, Eq)]
pub enum Outbound {
    /// Log in to the account, answering the seed.
    Login { user_name: String, password: String, seed: String },
    /// Play the character with this id.
    SelectCharacter(u32),
    /// Ask for the id of the character with this name.
    Lookup(String),
    /// Invite the character with this id to one's private channel.
    Invite(u32),
    /// Remove the character with this id from one's private channel.
    Kick(u32),
    /// Leave a private channel.
    Leave(Channel),
    /// Say something in a group.
    GroupMessage(Message),
    /// Say something to one character.
    Tell(Message),
    /// Say something in a private channel.
    PrivateChannelMessage(Message),
}

pub enum OutboundView {
    Login { user_name: Seq<char>, password: Seq<char>, seed: Seq<char> },
    SelectCharacter(u32),
    Lookup(Seq<char>),
    Invite(u32),
    Kick(u32),
    Leave(ChannelView),
    GroupMessage(MessageView),
    Tell(MessageView),
    PrivateChannelMessage(MessageView),
}

impl DeepView for Outbound {
    type V = OutboundView;

    open spec fn deep_view(&self) -> OutboundView {
        match self {
            Outbound::Login { user_name, password, seed } => OutboundView::Login {
                user_name: user_name@,
                password: password@,
                seed: seed@,
            },
            Outbound::SelectCharacter(id) => OutboundView::SelectCharacter(*id),
            Outbound::Lookup(name) => OutboundView::Lookup(name@),
            Outbound::Invite(id) => OutboundView::Invite(*id),
            Outbound::Kick(id) => OutboundView::Kick(*id),
            Outbound::Leave(channel) => OutboundView::Leave(channel@),
            Outbound::GroupMessage(message) => OutboundView::GroupMessage(message@),
            Outbound::Tell(message) => OutboundView::Tell(message@),
            Outbound::PrivateChannelMessage(message) => OutboundView::PrivateChannelMessage(
                message@,
            ),
        }
    }
}

impl View for Outbound {
    type V = OutboundView;

    open spec fn view(&self) -> OutboundView {
        self.deep_view()
    }
}

/// One thing that the engine asks its surroundings to do.
#[derive(Debug, PartialEq, Eq)]
pub enum Effect {
    /// Send the request to the server.
    Send(Outbound),
    /// Tell the user interface.
    Update(UiUpdate),
    /// Release everyone who waits for the lookup of this name.
    Wake(String),
}

pub enum EffectView {
    Send(OutboundView),
    Update(UiUpdateView),
    Wake(Seq<char>),
}

impl DeepView for Effect {
    type V = EffectView;

    open spec fn deep_view(&self) -> EffectView {
        match self {
            Effect::Send(request) => EffectView::Send(request@),
            Effect::Update(update) => EffectView::Update(update@),
            Effect::Wake(name) => EffectView::Wake(name@),
        }
    }
}

impl View for Effect {
    type V = EffectView;

    open spec fn view(&self) -> EffectView {
        self.deep_view()
    }
}

/// A condition under which the session cannot go on.
#[derive(Debug, PartialEq, Eq)]
pub enum Fatal {
    /// The server refused the login, with this reason.
    LoginRejected(String),
    /// The configured character is not among those of the account.
    CharacterMissing,
    /// A message or a channel names a character or a group of which no
    /// name is known.
    Unresolvable,
}

pub enum FatalView {
    LoginRejected(Seq<char>),
    CharacterMissing,
    Unresolvable,
}

impl DeepView for Fatal {
    type V = FatalView;

    open spec fn deep_view(&self) -> FatalView {
        match self {
            Fatal::LoginRejected(reason) => FatalView::LoginRejected(reason@),
            Fatal::CharacterMissing => FatalView::CharacterMissing,
            Fatal::Unresolvable => FatalView::Unresolvable,
        }
    }
}

impl View for Fatal {
    type V = FatalView;

    open spec fn view(&self) -> FatalView {
        self.deep_view()
    }
}

/// How a lookup of a name begins.
#[derive(Clone, Copy, Debug, PartialEq, Eq, Structural)]
pub enum Lookup {
    /// The name is in the cache, with this id: there is nothing to wait for.
    Known(u32),
    /// No lookup of the name was under way. One is now: the caller sends
    /// the request, then waits.
    Requested,
    /// A lookup of the name is under way: the caller waits with the others.
    Joined,
}

impl Lookup {
    /// The request that the lookup of `user` has to send, if it is the one
    /// that sends it.
    pub open spec fn request_for(self, user: Seq<char>) -> Option<OutboundView> {
        if self == Lookup::Requested {
            Some(OutboundView::Lookup(user))
        } else {
            None
        }
    }

    /// The request that the lookup of `user` has to send, if it is the one
    /// that sends it.
    pub fn request(&self, user: &str) -> (request: Option<Outbound>)
        ensures
            request.deep_view() == self.request_for(user@),
    {
        match self {
            Lookup::Requested => Some(Outbound::Lookup(String::from_str(user))),
            _ => None,
        }
    }
}

/// What an operation of the engine comes to: the effects to carry out, in
/// order, or the reason why the session ends.
pub type Outcome = Result<Vec<Effect>, Fatal>;

pub type OutcomeView = Result<Seq<EffectView>, FatalView>;

/// An [`Outcome`] in terms of views.
pub open spec fn outcome_view(outcome: Outcome) -> OutcomeView {
    match outcome {
        Ok(effects) => Ok(effects.deep_view()),
        Err(fatal) => Err(fatal@),
    }
}

} // verus!
