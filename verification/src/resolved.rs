//! Channels and messages with their names filled in, ready to be shown.

use crate::spans::{plain_line, span_texts, styled};
use crate::text::{pieces, split_char};
use tui::text::Spans;
use vstd::prelude::*;
use vstd::string::*;

verus! {

/// The four kinds of channel.
#[derive(Clone, Copy, Debug, PartialEq, Eq, Structural)]
pub enum ChannelType {
    Group,
    PrivateChannel,
    Tell,
    Vicinity,
}

/// A channel together with the name under which it is shown.
#[derive(Debug, PartialEq, Eq)]
pub struct ResolvedChannel {
    pub id: u32,
    pub name: String,
    pub kind: ChannelType,
}

pub struct ResolvedChannelView {
    pub id: u32,
    pub name: Seq<char>,
    pub kind: ChannelType,
}

impl ResolvedChannelView {
    /// The label of the channel: a mark for its kind, then its name. The
    /// vicinity is a lone dot.
    pub open spec fn label(self) -> Seq<char> {
        match self.kind {
            ChannelType::Group => seq!['*'] + self.name,
            ChannelType::PrivateChannel => seq!['#'] + self.name,
            ChannelType::Tell => seq!['@'] + self.name,
            ChannelType::Vicinity => seq!['.'],
        }
    }
}

impl DeepView for ResolvedChannel {
    type V = ResolvedChannelView;

    open spec fn deep_view(&self) -> ResolvedChannelView {
        ResolvedChannelView { id: self.id, name: self.name@, kind: self.kind }
    }
}

impl View for ResolvedChannel {
    type V = ResolvedChannelView;

    open spec fn view(&self) -> ResolvedChannelView {
        self.deep_view()
    }
}

impl Clone for ResolvedChannel {
    fn clone(&self) -> (copy: Self)
        ensures
            copy@ == self@,
    {
        ResolvedChannel { id: self.id, name: self.name.clone(), kind: self.kind }
    }
}

impl ResolvedChannel {
    /// The label under which the channel is shown.
    pub fn render(&self) -> (label: String)
        ensures
            label@ == self@.label(),
    {
        proof {
            reveal_strlit("*");
            reveal_strlit("#");
            reveal_strlit("@");
            reveal_strlit(".");
        }
        match self.kind {
            ChannelType::Group => String::from_str("*").concat(self.name.as_str()),
            ChannelType::PrivateChannel => String::from_str("#").concat(self.name.as_str()),
            ChannelType::Tell => String::from_str("@").concat(self.name.as_str()),
            ChannelType::Vicinity => String::from_str("."),
        }
    }
}

/// A message together with the names of its sender and its channel.
#[derive(Debug, PartialEq, Eq)]
pub struct ResolvedMessage {
    pub sender: Option<String>,
    pub channel: ResolvedChannel,
    pub text: String,
}

pub struct ResolvedMessageView {
    pub sender: Option<Seq<char>>,
    pub channel: ResolvedChannelView,
    pub text: Seq<char>,
}

impl ResolvedMessageView {
    /// The message as one text: the channel's label in square brackets,
    /// the sender and a colon where there is a sender, then the text.
    pub open spec fn rendered(self) -> Seq<char> {
        match self.sender {
            Some(sender) => seq!['['] + self.channel.label() + seq![']', ' '] + sender + seq![
                ':',
                ' ',
            ] + self.text,
            None => seq!['['] + self.channel.label() + seq![']', ' '] + self.text,
        }
    }
}

impl DeepView for ResolvedMessage {
    type V = ResolvedMessageView;

    open spec fn deep_view(&self) -> ResolvedMessageView {
        ResolvedMessageView {
            sender: self.sender.deep_view(),
            channel: self.channel@,
            text: self.text@,
        }
    }
}

impl View for ResolvedMessage {
    type V = ResolvedMessageView;

    open spec fn view(&self) -> ResolvedMessageView {
        self.deep_view()
    }
}

impl Clone for ResolvedMessage {
    fn clone(&self) -> (copy: Self)
        ensures
            copy@ == self@,
    {
        let sender = match &self.sender {
            Some(name) => Some(name.clone()),
            None => None,
        };
        ResolvedMessage { sender, channel: self.channel.clone(), text: self.text.clone() }
    }
}

impl ResolvedMessage {
    /// The message as one text.
    pub fn render_text(&self) -> (text: String)
        ensures
            text@ == self@.rendered(),
    {
        proof {
            reveal_strlit("[");
            reveal_strlit("] ");
            reveal_strlit(": ");
        }
        let label = self.channel.render();
        let mut text = String::from_str("[");
        text.append(label.as_str());
        text.append("] ");
        match &self.sender {
            Some(sender) => {
                text.append(sender.as_str());
                text.append(": ");
            },
            None => {},
        }
        text.append(self.text.as_str());
        text
    }

    /// The message as lines for the terminal: its text cut at every line
    /// feed, each piece a line of one span without a style.
    pub fn render(&self) -> (lines: Vec<Spans<'static>>)
        ensures
            lines@.len() == pieces(self@.rendered(), '\n').len(),
            forall|i: int|
                0 <= i < lines@.len() ==> span_texts(&#[trigger] lines@[i]) == seq![
                    pieces(self@.rendered(), '\n')[i],
                ] && !styled(&lines@[i]),
    {
        let text = self.render_text();
        let parts = split_char(text.as_str(), '\n');
        let mut lines: Vec<Spans<'static>> = Vec::new();
        let mut i: usize = 0;
        while i < parts.len()
            invariant
                i <= parts@.len(),
                lines@.len() == i,
                parts.deep_view() == pieces(self@.rendered(), '\n'),
                forall|k: int|
                    0 <= k < i ==> span_texts(&#[trigger] lines@[k]) == seq![
                        pieces(self@.rendered(), '\n')[k],
                    ] && !styled(&lines@[k]),
            decreases parts@.len() - i,
        {
            lines.push(plain_line(String::from_str(parts[i])));
            i = i + 1;
        }
        lines
    }
}

/// What the user interface is told.
#[derive(Debug, PartialEq, Eq)]
pub enum UiUpdate {
    Message(ResolvedMessage),
    Invite(ResolvedChannel),
    Kick(ResolvedChannel),
    Leave(String, ResolvedChannel),
}

pub enum UiUpdateView {
    Message(ResolvedMessageView),
    Invite(ResolvedChannelView),
    Kick(ResolvedChannelView),
    Leave(Seq<char>, ResolvedChannelView),
}

impl DeepView for UiUpdate {
    type V = UiUpdateView;

    open spec fn deep_view(&self) -> UiUpdateView {
        match self {
            UiUpdate::Message(message) => UiUpdateView::Message(message@),
            UiUpdate::Invite(channel) => UiUpdateView::Invite(channel@),
            UiUpdate::Kick(channel) => UiUpdateView::Kick(channel@),
            UiUpdate::Leave(user, channel) => UiUpdateView::Leave(user@, channel@),
        }
    }
}

impl View for UiUpdate {
    type V = UiUpdateView;

    open spec fn view(&self) -> UiUpdateView {
        self.deep_view()
    }
}

} // verus!
