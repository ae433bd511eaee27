//! Channels and messages, and the ordered registry of known channels.

use vstd::prelude::*;
use vstd::string::*;

verus! {

/// A group of the network: its id, and its name where the event that
/// brought it carried one.
#[derive(Debug, PartialEq, Eq)]
pub struct Group {
    pub id: u32,
    pub name: Option<String>,
}

pub struct GroupView {
    pub id: u32,
    pub name: Option<Seq<char>>,
}

impl DeepView for Group {
    type V = GroupView;

    open spec fn deep_view(&self) -> GroupView {
        GroupView { id: self.id, name: self.name.deep_view() }
    }
}

impl View for Group {
    type V = GroupView;

    open spec fn view(&self) -> GroupView {
        self.deep_view()
    }
}

impl Clone for Group {
    fn clone(&self) -> (copy: Self)
        ensures
            copy@ == self@,
    {
        let name = match &self.name {
            Some(n) => Some(n.clone()),
            None => None,
        };
        Group { id: self.id, name }
    }
}

/// A place that messages come from and go to.
#[derive(Debug, PartialEq, Eq)]
pub enum Channel {
    /// A named group.
    Group(Group),
    /// The private channel owned by the character with this id.
    PrivateChannel(u32),
    /// The direct conversation with the character with this id.
    Tell(u32),
    /// What is said nearby. The server alone speaks here.
    Vicinity,
}

pub enum ChannelView {
    Group(GroupView),
    PrivateChannel(u32),
    Tell(u32),
    Vicinity,
}

impl ChannelView {
    /// Whether this is a group with the id `id`.
    pub open spec fn is_group_with(self, id: u32) -> bool {
        self matches ChannelView::Group(group) && group.id == id
    }
}

impl DeepView for Channel {
    type V = ChannelView;

    open spec fn deep_view(&self) -> ChannelView {
        match self {
            Channel::Group(group) => ChannelView::Group(group@),
            Channel::PrivateChannel(owner) => ChannelView::PrivateChannel(*owner),
            Channel::Tell(peer) => ChannelView::Tell(*peer),
            Channel::Vicinity => ChannelView::Vicinity,
        }
    }
}

impl View for Channel {
    type V = ChannelView;

    open spec fn view(&self) -> ChannelView {
        self.deep_view()
    }
}

impl Clone for Channel {
    fn clone(&self) -> (copy: Self)
        ensures
            copy@ == self@,
    {
        match self {
            Channel::Group(group) => Channel::Group(group.clone()),
            Channel::PrivateChannel(owner) => Channel::PrivateChannel(*owner),
            Channel::Tell(peer) => Channel::Tell(*peer),
            Channel::Vicinity => Channel::Vicinity,
        }
    }
}

/// A message: who sent it (nobody, for what the system or the vicinity
/// says), where, its text, and the tag that the protocol carries along.
#[derive(Debug, PartialEq, Eq)]
pub struct Message {
    pub sender: Option<u32>,
    pub channel: Channel,
    pub text: String,
    pub send_tag: String,
}

pub struct MessageView {
    pub sender: Option<u32>,
    pub channel: ChannelView,
    pub text: Seq<char>,
    pub send_tag: Seq<char>,
}

impl DeepView for Message {
    type V = MessageView;

    open spec fn deep_view(&self) -> MessageView {
        MessageView {
            sender: self.sender,
            channel: self.channel@,
            text: self.text@,
            send_tag: self.send_tag@,
        }
    }
}

impl View for Message {
    type V = MessageView;

    open spec fn view(&self) -> MessageView {
        self.deep_view()
    }
}

impl Clone for Message {
    fn clone(&self) -> (copy: Self)
        ensures
            copy@ == self@,
    {
        Message {
            sender: self.sender,
            channel: self.channel.clone(),
            text: self.text.clone(),
            send_tag: self.send_tag.clone(),
        }
    }
}

/// The registry after `channel` was registered: a tell channel that is
/// already there is not added again; anything else goes to the end.
pub open spec fn registered(channels: Seq<ChannelView>, channel: ChannelView) -> Seq<ChannelView> {
    if channel is Tell && channels.contains(channel) {
        channels
    } else {
        channels.push(channel)
    }
}

/// The registry after `channel` was announced by the server: a group whose
/// id is already registered changes nothing, so that the first entry and
/// its name stay; anything else is registered.
pub open spec fn announced(channels: Seq<ChannelView>, channel: ChannelView) -> Seq<ChannelView> {
    match channel {
        ChannelView::Group(group) => if first_group(channels, group.id, 0) is Some {
            channels
        } else {
            channels.push(channel)
        },
        _ => registered(channels, channel),
    }
}

/// No two groups in the registry share an id.
pub open spec fn groups_unique(channels: Seq<ChannelView>) -> bool {
    forall|i: int, j: int, id: u32|
        0 <= i < j < channels.len() && (#[trigger] channels[i].is_group_with(id)) ==> !(
        #[trigger] channels[j].is_group_with(id))
}

/// No tell channel stands twice in the registry.
pub open spec fn tells_unique(channels: Seq<ChannelView>) -> bool {
    forall|i: int, j: int|
        0 <= i < j < channels.len() && channels[i] is Tell ==> channels[i] != channels[j]
}

/// How often `channel` stands in `channels`.
pub open spec fn occurrences(channels: Seq<ChannelView>, channel: ChannelView) -> nat
    decreases channels.len(),
{
    if channels.len() == 0 {
        0
    } else {
        occurrences(channels.drop_last(), channel) + if channels.last() == channel {
            1nat
        } else {
            0nat
        }
    }
}

/// The first group with the id `id` at or after index `from`.
pub open spec fn first_group(channels: Seq<ChannelView>, id: u32, from: int) -> Option<GroupView>
    decreases channels.len() - from,
{
    if from < 0 || from >= channels.len() {
        None
    } else {
        match channels[from] {
            ChannelView::Group(group) => if group.id == id {
                Some(group)
            } else {
                first_group(channels, id, from + 1)
            },
            _ => first_group(channels, id, from + 1),
        }
    }
}

/// Whether the tell channel with `peer` is in the registry.
pub fn has_tell(channels: &Vec<Channel>, peer: u32) -> (found: bool)
    ensures
        found == channels.deep_view().contains(ChannelView::Tell(peer)),
{
    let mut i: usize = 0;
    while i < channels.len()
        invariant
            i <= channels@.len(),
            forall|k: int| 0 <= k < i ==> channels.deep_view()[k] != ChannelView::Tell(peer),
        decreases channels@.len() - i,
    {
        match &channels[i] {
            Channel::Tell(other) => {
                if *other == peer {
                    assert(channels.deep_view()[i as int] == ChannelView::Tell(peer));
                    return true;
                }
            },
            _ => {},
        }
        i = i + 1;
    }
    false
}

/// Registers `channel`: a tell channel only if its peer has none yet, any
/// other channel always.
pub fn register(channels: &mut Vec<Channel>, channel: Channel)
    ensures
        final(channels).deep_view() == registered(old(channels).deep_view(), channel@),
        tells_unique(old(channels).deep_view()) ==> tells_unique(final(channels).deep_view()),
{
    let present = match &channel {
        Channel::Tell(peer) => has_tell(channels, *peer),
        _ => false,
    };
    if !present {
        channels.push(channel);
    }
}

/// Takes in a channel that the server announced: a group only if none of
/// its id is registered yet; anything else as [`register`] does.
pub fn announce(channels: &mut Vec<Channel>, channel: Channel)
    ensures
        final(channels).deep_view() == announced(old(channels).deep_view(), channel@),
        tells_unique(old(channels).deep_view()) ==> tells_unique(final(channels).deep_view()),
{
    let known = match &channel {
        Channel::Group(group) => find_group(channels, group.id).is_some(),
        _ => false,
    };
    if !known {
        register(channels, channel);
    }
}

/// The first group with the id `id` in the registry.
pub fn find_group(channels: &Vec<Channel>, id: u32) -> (found: Option<&Group>)
    ensures
        found.deep_view() == first_group(channels.deep_view(), id, 0),
{
    let mut i: usize = 0;
    while i < channels.len()
        invariant
            i <= channels@.len(),
            first_group(channels.deep_view(), id, 0) == first_group(
                channels.deep_view(),
                id,
                i as int,
            ),
        decreases channels@.len() - i,
    {
        match &channels[i] {
            Channel::Group(group) => {
                if group.id == id {
                    return Some(group);
                }
            },
            _ => {},
        }
        i = i + 1;
    }
    None
}

} // verus!
