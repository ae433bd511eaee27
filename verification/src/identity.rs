//! The identity cache: a two-way table between character ids and names.

use bimap::BiHashMap;
use vstd::prelude::*;

verus! {

/// `bimap::BiHashMap`, a map that holds pairs and finds them by either
/// side. Nothing of its inside is taken as known.
#[verifier::external_type_specification]
#[verifier::external_body]
#[verifier::reject_recursive_types(L)]
#[verifier::reject_recursive_types(R)]
#[verifier::reject_recursive_types(LS)]
#[verifier::reject_recursive_types(RS)]
pub struct ExBiHashMap<L, R, LS, RS>(BiHashMap<L, R, LS, RS>);

/// The pairs held by a bimap of ids and names, as the map from each id to its name.
pub uninterp spec fn pairs(table: &BiHashMap<u32, String>) -> Map<u32, Seq<char>>;

/// What `insert` leaves behind: the pair `(id, name)`, and every earlier pair
/// that shares neither the id nor the name.
pub open spec fn with_pair(m: Map<u32, Seq<char>>, id: u32, name: Seq<char>) -> Map<u32, Seq<char>> {
    Map::new(
        |k: u32| k == id || (m.dom().contains(k) && m[k] != name),
        |k: u32| if k == id { name } else { m[k] },
    )
}

/// No two ids share a name.
pub open spec fn one_to_one(m: Map<u32, Seq<char>>) -> bool {
    forall|a: u32, b: u32| m.dom().contains(a) && m.dom().contains(b) && m[a] == m[b] ==> a == b
}

/// `BiHashMap::new`: a bimap without pairs.
#[verifier::external_body]
fn table_new() -> (fresh: BiHashMap<u32, String>)
    ensures
        pairs(&fresh) == (Map::<u32, Seq<char>>::empty()),
{
    BiHashMap::new()
}

/// `BiHashMap::insert`: removes the pair of `id` and the pair of `name`, if
/// any, then adds `(id, name)`.
#[verifier::external_body]
fn table_insert(table: &mut BiHashMap<u32, String>, id: u32, name: String)
    ensures
        pairs(final(table)) == with_pair(pairs(old(table)), id, name@),
{
    let _ = table.insert(id, name);
}

/// `BiHashMap::get_by_left`: the name paired with `id`, if there is one.
#[verifier::external_body]
fn table_get_by_left<'a>(table: &'a BiHashMap<u32, String>, id: u32) -> (name: Option<&'a String>)
    ensures
        match name {
            Some(n) => pairs(table).dom().contains(id) && pairs(table)[id] == n@,
            None => !pairs(table).dom().contains(id),
        },
{
    table.get_by_left(&id)
}

/// `BiHashMap::get_by_right`: an id paired with `name`, if there is one.
#[verifier::external_body]
fn table_get_by_right(table: &BiHashMap<u32, String>, name: &str) -> (id: Option<u32>)
    ensures
        match id {
            Some(k) => pairs(table).dom().contains(k) && pairs(table)[k] == name@,
            None => forall|k: u32| pairs(table).dom().contains(k) ==> pairs(table)[k] != name@,
        },
{
    table.get_by_right(name).copied()
}

/// The name paired with `id`, if `id` is known.
pub open spec fn name_of(m: Map<u32, Seq<char>>, id: u32) -> Option<Seq<char>> {
    if m.dom().contains(id) {
        Some(m[id])
    } else {
        None
    }
}

/// Whether some id is paired with `name`.
pub open spec fn names(m: Map<u32, Seq<char>>, name: Seq<char>) -> bool {
    exists|id: u32| m.dom().contains(id) && #[trigger] m[id] == name
}

/// The id paired with `name`, if `name` is known. In a table that is one
/// to one there is at most one such id.
pub open spec fn id_of(m: Map<u32, Seq<char>>, name: Seq<char>) -> Option<u32> {
    if names(m, name) {
        Some(choose|id: u32| m.dom().contains(id) && #[trigger] m[id] == name)
    } else {
        None
    }
}

/// In a table that is one to one, the id of a name is the only id paired
/// with it.
pub proof fn lemma_id_of_unique(m: Map<u32, Seq<char>>, name: Seq<char>, id: u32)
    requires
        one_to_one(m),
        m.dom().contains(id),
        m[id] == name,
    ensures
        id_of(m, name) == Some(id),
{
}

/// The two-way table between the ids of characters and their names.
pub struct IdentityCache {
    table: BiHashMap<u32, String>,
}

impl View for IdentityCache {
    type V = Map<u32, Seq<char>>;

    closed spec fn view(&self) -> Map<u32, Seq<char>> {
        pairs(&self.table)
    }
}

impl IdentityCache {
    /// No two ids share a name.
    pub open spec fn wf(&self) -> bool {
        one_to_one(self@)
    }

    /// A cache that knows nobody.
    pub fn new() -> (cache: Self)
        ensures
            cache.wf(),
            cache@ == Map::<u32, Seq<char>>::empty(),
    {
        IdentityCache { table: table_new() }
    }

    /// Pairs `id` with `name`. An earlier pair of either gives way.
    pub fn insert(&mut self, id: u32, name: String)
        requires
            old(self).wf(),
        ensures
            final(self).wf(),
            final(self)@ == with_pair(old(self)@, id, name@),
    {
        table_insert(&mut self.table, id, name);
    }

    /// The name of the character with the id `id`.
    pub fn name_of(&self, id: u32) -> (name: Option<&String>)
        ensures
            name.deep_view() == name_of(self@, id),
    {
        table_get_by_left(&self.table, id)
    }

    /// The id of the character named `name`.
    pub fn id_of(&self, name: &str) -> (id: Option<u32>)
        requires
            self.wf(),
        ensures
            id == id_of(self@, name@),
    {
        let id = table_get_by_right(&self.table, name);
        proof {
            match id {
                Some(k) => {
                    lemma_id_of_unique(self@, name@, k);
                },
                None => {},
            }
        }
        id
    }
}

} // verus!
