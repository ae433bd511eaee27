//! What holds of the engine in every state, proved of its model.

use crate::channel::{
    announced, first_group, groups_unique, occurrences, registered, tells_unique, ChannelView,
    GroupView,
};
use crate::config::ConfigView;
use crate::event::{EffectView, EventView, Lookup};
use crate::identity::{id_of, lemma_id_of_unique, name_of, one_to_one, with_pair};
use crate::model::ChatModel;
use crate::resolved::{ChannelType, ResolvedChannelView};
use vstd::prelude::*;

verus! {

/// The state after `count` lookups of `name` in a row.
pub open spec fn lookups(s: ChatModel, name: Seq<char>, count: nat) -> ChatModel
    decreases count,
{
    if count == 0 {
        s
    } else {
        lookups(s, name, (count - 1) as nat).lookup(name).0
    }
}

/// What the lookup after `before` earlier ones of `name` is told.
pub open spec fn nth_lookup(s: ChatModel, name: Seq<char>, before: nat) -> Lookup {
    lookups(s, name, before).lookup(name).1
}

/// How many of the first `count` lookups of `name` send a request.
pub open spec fn requests(s: ChatModel, name: Seq<char>, count: nat) -> nat
    decreases count,
{
    if count == 0 {
        0
    } else {
        requests(s, name, (count - 1) as nat) + if nth_lookup(
            s,
            name,
            (count - 1) as nat,
        ).request_for(name) is Some {
            1nat
        } else {
            0nat
        }
    }
}

/// Any number of lookups of an unknown name, begun before the answer has
/// come, send one request between them: the first sends it and leaves the
/// name pending, every later one joins.
pub proof fn theorem_single_flight(s: ChatModel, name: Seq<char>, count: nat)
    requires
        count >= 1,
        id_of(s.identities, name) is None,
        !s.pending_lookups.contains(name),
    ensures
        requests(s, name, count) == 1,
        nth_lookup(s, name, 0) == Lookup::Requested,
        forall|i: nat| 1 <= i < count ==> nth_lookup(s, name, i) == Lookup::Joined,
        lookups(s, name, count) == s.lookup(name).0,
        lookups(s, name, count).pending_lookups.contains(name),
    decreases count,
{
    reveal_with_fuel(lookups, 2);
    reveal_with_fuel(requests, 2);
    if count > 1 {
        theorem_single_flight(s, name, (count - 1) as nat);
    }
}

/// While a lookup of a name is under way, no lookup of that name sends a
/// request, whatever their number, and none changes the state.
pub proof fn theorem_pending_sends_nothing(s: ChatModel, name: Seq<char>, count: nat)
    requires
        s.pending_lookups.contains(name),
    ensures
        requests(s, name, count) == 0,
        lookups(s, name, count) == s,
    decreases count,
{
    if count > 0 {
        theorem_pending_sends_nothing(s, name, (count - 1) as nat);
    }
}

/// A lookup of a known name is answered at once with its id, sends
/// nothing and changes nothing.
pub proof fn theorem_known_is_immediate(s: ChatModel, name: Seq<char>, id: u32)
    requires
        one_to_one(s.identities),
        s.identities.dom().contains(id),
        s.identities[id] == name,
    ensures
        s.lookup(name) == (s, Lookup::Known(id)),
{
    lemma_id_of_unique(s.identities, name, id);
}

/// A name stays pending through every event but the answer to its own
/// lookup.
pub proof fn theorem_pending_until_answered(
    s: ChatModel,
    event: EventView,
    config: ConfigView,
    name: Seq<char>,
)
    requires
        s.pending_lookups.contains(name),
        !(event matches EventView::LookupResult { name: answered, .. } && answered == name),
    ensures
        s.handle(event, config).0.pending_lookups.contains(name),
{
}

/// A name stays pending through the lookup of any name.
pub proof fn theorem_pending_through_lookups(s: ChatModel, name: Seq<char>, other: Seq<char>)
    requires
        s.pending_lookups.contains(name),
    ensures
        s.lookup(other).0.pending_lookups.contains(name),
{
}

/// The answer to the lookup of a name ends the lookup, and wakes those who
/// waited if and only if there was one under way. All of them then come
/// away with the same: the id, where the name was found.
pub proof fn theorem_answer_releases(s: ChatModel, name: Seq<char>, id: u32, found: bool)
    requires
        one_to_one(s.identities),
    ensures
        !s.lookup_result(name, id, found).0.pending_lookups.contains(name),
        s.lookup_result(name, id, found).1 == Ok::<Seq<EffectView>, crate::event::FatalView>(
            if s.pending_lookups.contains(name) {
                seq![EffectView::Wake(name)]
            } else {
                Seq::empty()
            },
        ),
        found ==> s.lookup_result(name, id, found).0.lookup_outcome(name) == Some(id),
        !found ==> s.lookup_result(name, id, found).0.lookup_outcome(name) == s.lookup_outcome(
            name,
        ),
{
    if found {
        lemma_id_of_unique(with_pair(s.identities, id, name), name, id);
    }
}

/// An answer that the name was not found leaves the identities as they
/// were: whoever waited for a name that nobody bears comes away with
/// nothing, and the next lookup of the name sends a request again.
pub proof fn theorem_not_found_changes_nothing(s: ChatModel, name: Seq<char>, id: u32)
    requires
        id_of(s.identities, name) is None,
    ensures
        s.lookup_result(name, id, false).0.identities == s.identities,
        s.lookup_result(name, id, false).0.channels == s.channels,
        s.lookup_result(name, id, false).0.lookup_outcome(name) == None::<u32>,
        s.lookup_result(name, id, false).0.lookup(name).1 == Lookup::Requested,
{
}

/// In a registry without a tell channel twice, a channel stands once if it
/// stands at all.
pub proof fn lemma_tell_occurs_once(channels: Seq<ChannelView>, peer: u32)
    requires
        tells_unique(channels),
    ensures
        occurrences(channels, ChannelView::Tell(peer)) == if channels.contains(
            ChannelView::Tell(peer),
        ) {
            1nat
        } else {
            0nat
        },
    decreases channels.len(),
{
    let tell = ChannelView::Tell(peer);
    if channels.len() > 0 {
        let front = channels.drop_last();
        assert(tells_unique(front)) by {
            assert forall|i: int, j: int|
                0 <= i < j < front.len() && front[i] is Tell implies front[i] != front[j] by {}
        }
        lemma_tell_occurs_once(front, peer);
        if channels.contains(tell) && !front.contains(tell) && channels.last() != tell {
            let i = choose|i: int| 0 <= i < channels.len() && channels[i] == tell;
            assert(front[i] == tell);
        }
    }
}

/// Registering keeps the registry free of tell channels that stand twice.
pub proof fn lemma_registered_unique(channels: Seq<ChannelView>, channel: ChannelView)
    requires
        tells_unique(channels),
    ensures
        tells_unique(registered(channels, channel)),
{
}

/// Registering the tell channel of a peer twice leaves it in the registry
/// exactly once: the second registration changes nothing.
pub proof fn theorem_tell_registered_once(channels: Seq<ChannelView>, peer: u32)
    requires
        tells_unique(channels),
    ensures
        occurrences(
            registered(registered(channels, ChannelView::Tell(peer)), ChannelView::Tell(peer)),
            ChannelView::Tell(peer),
        ) == 1,
        registered(registered(channels, ChannelView::Tell(peer)), ChannelView::Tell(peer))
            == registered(channels, ChannelView::Tell(peer)),
{
    let tell = ChannelView::Tell(peer);
    let once = registered(channels, tell);
    lemma_registered_unique(channels, tell);
    if !channels.contains(tell) {
        assert(once[once.len() - 1] == tell);
    }
    lemma_tell_occurs_once(once, peer);
}

/// A group that comes without a name is shown under the name that the
/// first group of its id in the registry carries.
pub proof fn theorem_group_name_recovered(s: ChatModel, at: int, id: u32, name: Seq<char>)
    requires
        0 <= at < s.channels.len(),
        s.channels[at] == ChannelView::Group(GroupView { id, name: Some(name) }),
        forall|k: int| 0 <= k < at ==> !(#[trigger] s.channels[k]).is_group_with(id),
    ensures
        s.resolve_channel(ChannelView::Group(GroupView { id, name: None })) == Some(
            ResolvedChannelView { id, name, kind: ChannelType::Group },
        ),
{
    lemma_first_group_at(s.channels, id, 0, at);
}

/// The first group of an id from `from` on is the one at `at`, where none
/// of that id stands between the two.
pub proof fn lemma_first_group_at(channels: Seq<ChannelView>, id: u32, from: int, at: int)
    requires
        0 <= from <= at < channels.len(),
        channels[at].is_group_with(id),
        forall|k: int| from <= k < at ==> !(#[trigger] channels[k]).is_group_with(id),
    ensures
        first_group(channels, id, from) is Some,
        ChannelView::Group(first_group(channels, id, from).unwrap()) == channels[at],
    decreases at - from,
{
    if from < at {
        lemma_first_group_at(channels, id, from + 1, at);
    }
}

/// The identities after each pair of `learnt` was learnt in turn.
pub open spec fn learn_all(m: Map<u32, Seq<char>>, learnt: Seq<(u32, Seq<char>)>) -> Map<
    u32,
    Seq<char>,
>
    decreases learnt.len(),
{
    if learnt.len() == 0 {
        m
    } else {
        with_pair(learn_all(m, learnt.drop_last()), learnt.last().0, learnt.last().1)
    }
}

/// Whatever is learnt, in whatever order, the identities stay a bijection
/// between ids and names.
pub proof fn theorem_identities_stay_one_to_one(
    m: Map<u32, Seq<char>>,
    learnt: Seq<(u32, Seq<char>)>,
)
    requires
        one_to_one(m),
    ensures
        one_to_one(learn_all(m, learnt)),
    decreases learnt.len(),
{
    if learnt.len() > 0 {
        theorem_identities_stay_one_to_one(m, learnt.drop_last());
    }
}

/// Where the pairs that are learnt differ from one another in id and in
/// name, none of them pushes another out: each is known afterwards, both
/// ways.
pub proof fn theorem_distinct_pairs_all_known(
    m: Map<u32, Seq<char>>,
    learnt: Seq<(u32, Seq<char>)>,
    i: int,
)
    requires
        one_to_one(m),
        0 <= i < learnt.len(),
        forall|a: int, b: int|
            0 <= a < b < learnt.len() ==> learnt[a].0 != learnt[b].0 && learnt[a].1 != learnt[b].1,
    ensures
        name_of(learn_all(m, learnt), learnt[i].0) == Some(learnt[i].1),
        id_of(learn_all(m, learnt), learnt[i].1) == Some(learnt[i].0),
    decreases learnt.len(),
{
    let front = learnt.drop_last();
    theorem_identities_stay_one_to_one(m, learnt);
    if i < learnt.len() - 1 {
        assert forall|a: int, b: int| 0 <= a < b < front.len() implies front[a].0 != front[b].0
            && front[a].1 != front[b].1 by {}
        theorem_distinct_pairs_all_known(m, front, i);
    }
    lemma_id_of_unique(learn_all(m, learnt), learnt[i].1, learnt[i].0);
}

/// Every event leaves the state well formed.
pub proof fn theorem_handle_keeps_wf(s: ChatModel, event: EventView, config: ConfigView)
    requires
        s.wf(),
    ensures
        s.handle(event, config).0.wf(),
{
}

/// The state after the events of `events`, each taken in as it comes.
pub open spec fn handle_all(s: ChatModel, events: Seq<EventView>, config: ConfigView) -> ChatModel
    decreases events.len(),
{
    if events.len() == 0 {
        s
    } else {
        handle_all(s, events.drop_last(), config).handle(events.last(), config).0
    }
}

/// After any sequence of events the identities are a bijection and no
/// tell channel is registered twice.
pub proof fn theorem_wf_after_any_events(s: ChatModel, events: Seq<EventView>, config: ConfigView)
    requires
        s.wf(),
    ensures
        handle_all(s, events, config).wf(),
    decreases events.len(),
{
    if events.len() > 0 {
        theorem_wf_after_any_events(s, events.drop_last(), config);
        theorem_handle_keeps_wf(
            handle_all(s, events.drop_last(), config),
            events.last(),
            config,
        );
    }
}

/// Where the search for a group of an id from `from` on finds none, no
/// group of that id stands there; where it finds one, one does.
pub proof fn lemma_first_group_found(channels: Seq<ChannelView>, id: u32, from: int)
    requires
        0 <= from <= channels.len(),
    ensures
        first_group(channels, id, from) is None <==> forall|k: int|
            from <= k < channels.len() ==> !(#[trigger] channels[k]).is_group_with(id),
    decreases channels.len() - from,
{
    if from < channels.len() {
        lemma_first_group_found(channels, id, from + 1);
    }
}

/// An announcement keeps the registry free of groups that share an id.
pub proof fn lemma_announced_unique(channels: Seq<ChannelView>, channel: ChannelView)
    requires
        groups_unique(channels),
    ensures
        groups_unique(announced(channels, channel)),
{
    if let ChannelView::Group(group) = channel {
        lemma_first_group_found(channels, group.id, 0);
    }
}

/// A group that is announced again, with or without its name or under
/// another, gets no second entry: the registry stays as the first
/// announcement of its id left it.
pub proof fn theorem_group_announced_once(
    channels: Seq<ChannelView>,
    first: GroupView,
    again: GroupView,
)
    requires
        first.id == again.id,
    ensures
        announced(announced(channels, ChannelView::Group(first)), ChannelView::Group(again))
            == announced(channels, ChannelView::Group(first)),
{
    let once = announced(channels, ChannelView::Group(first));
    lemma_first_group_found(channels, first.id, 0);
    lemma_first_group_found(once, first.id, 0);
    if first_group(channels, first.id, 0) is None {
        assert(once[once.len() - 1].is_group_with(first.id));
    }
}

/// A group that is announced with its name while none of its id is
/// registered is shown under that name from then on, whatever events come
/// after.
pub proof fn theorem_first_announcement_names_the_group(
    s: ChatModel,
    id: u32,
    name: Seq<char>,
    later: Seq<EventView>,
    config: ConfigView,
)
    requires
        first_group(s.channels, id, 0) is None,
    ensures
        handle_all(
            s.announce(ChannelView::Group(GroupView { id, name: Some(name) })),
            later,
            config,
        ).resolve_channel(ChannelView::Group(GroupView { id, name: None })) == Some(
            ResolvedChannelView { id, name, kind: ChannelType::Group },
        ),
{
    let named = ChannelView::Group(GroupView { id, name: Some(name) });
    let start = s.announce(named);
    lemma_first_group_found(s.channels, id, 0);
    lemma_events_extend_registry(start, later, config);
    let end = handle_all(start, later, config);
    let at = s.channels.len() as int;
    assert(start.channels[at] == named);
    assert forall|k: int| 0 <= k < at implies !(#[trigger] end.channels[k]).is_group_with(id) by {
        assert(start.channels[k] == s.channels[k]);
    }
    theorem_group_name_recovered(end, at, id, name);
}

/// Events only add to the end of the registry.
pub proof fn lemma_events_extend_registry(
    s: ChatModel,
    events: Seq<EventView>,
    config: ConfigView,
)
    ensures
        s.channels.len() <= handle_all(s, events, config).channels.len(),
        forall|k: int|
            0 <= k < s.channels.len() ==> handle_all(s, events, config).channels[k]
                == s.channels[k],
    decreases events.len(),
{
    if events.len() > 0 {
        lemma_events_extend_registry(s, events.drop_last(), config);
    }
}

/// Every event keeps the registry free of groups that share an id.
pub proof fn theorem_handle_keeps_groups_unique(s: ChatModel, event: EventView, config: ConfigView)
    requires
        groups_unique(s.channels),
    ensures
        groups_unique(s.handle(event, config).0.channels),
{
    if let EventView::GroupAnnounced(channel) = event {
        lemma_announced_unique(s.channels, channel);
    }
}

/// After any sequence of events no two groups in the registry share an
/// id, if none did before.
pub proof fn theorem_groups_unique_after_any_events(
    s: ChatModel,
    events: Seq<EventView>,
    config: ConfigView,
)
    requires
        groups_unique(s.channels),
    ensures
        groups_unique(handle_all(s, events, config).channels),
    decreases events.len(),
{
    if events.len() > 0 {
        theorem_groups_unique_after_any_events(s, events.drop_last(), config);
        theorem_handle_keeps_groups_unique(
            handle_all(s, events.drop_last(), config),
            events.last(),
            config,
        );
    }
}

/// Whatever events a session has taken in since its start, no two groups
/// in its registry share an id.
pub proof fn theorem_one_entry_for_each_group(events: Seq<EventView>, config: ConfigView)
    ensures
        groups_unique(handle_all(ChatModel::initial(), events, config).channels),
{
    theorem_groups_unique_after_any_events(ChatModel::initial(), events, config);
}

/// In a registry without two groups of one id, a group that comes without
/// a name is shown under the name that the group of its id carries there.
pub proof fn theorem_group_name_recovered_from_its_entry(
    s: ChatModel,
    at: int,
    id: u32,
    name: Seq<char>,
)
    requires
        groups_unique(s.channels),
        0 <= at < s.channels.len(),
        s.channels[at] == ChannelView::Group(GroupView { id, name: Some(name) }),
    ensures
        s.resolve_channel(ChannelView::Group(GroupView { id, name: None })) == Some(
            ResolvedChannelView { id, name, kind: ChannelType::Group },
        ),
{
    assert forall|k: int| 0 <= k < at implies !(#[trigger] s.channels[k]).is_group_with(id) by {
        if s.channels[k].is_group_with(id) {
            assert(s.channels[at].is_group_with(id));
        }
    }
    theorem_group_name_recovered(s, at, id, name);
}

} // verus!
