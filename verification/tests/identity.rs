use ao_chat_client::identity::IdentityCache;

fn name(s: &str) -> String {
    String::from(s)
}

#[test]
fn a_new_cache_knows_nobody() {
    let cache = IdentityCache::new();
    assert_eq!(cache.name_of(0), None);
    assert_eq!(cache.id_of(""), None);
    assert_eq!(cache.id_of("Bob"), None);
}

#[test]
fn an_inserted_pair_is_found_both_ways() {
    let mut cache = IdentityCache::new();
    cache.insert(99, name("Bob"));
    cache.insert(7, name("Me"));
    assert_eq!(cache.name_of(99), Some(&name("Bob")));
    assert_eq!(cache.id_of("Bob"), Some(99));
    assert_eq!(cache.name_of(7), Some(&name("Me")));
    assert_eq!(cache.id_of("Me"), Some(7));
    assert_eq!(cache.name_of(8), None);
    assert_eq!(cache.id_of("bob"), None);
}

#[test]
fn a_new_name_for_an_id_replaces_the_old_one() {
    let mut cache = IdentityCache::new();
    cache.insert(1, name("a"));
    cache.insert(1, name("b"));
    assert_eq!(cache.name_of(1), Some(&name("b")));
    assert_eq!(cache.id_of("b"), Some(1));
    assert_eq!(cache.id_of("a"), None);
}

#[test]
fn a_new_id_for_a_name_replaces_the_old_one() {
    let mut cache = IdentityCache::new();
    cache.insert(1, name("a"));
    cache.insert(2, name("a"));
    assert_eq!(cache.id_of("a"), Some(2));
    assert_eq!(cache.name_of(2), Some(&name("a")));
    assert_eq!(cache.name_of(1), None);
}

#[test]
fn a_pair_can_push_out_two() {
    let mut cache = IdentityCache::new();
    cache.insert(1, name("a"));
    cache.insert(2, name("b"));
    cache.insert(3, name("c"));
    cache.insert(1, name("b"));
    assert_eq!(cache.name_of(1), Some(&name("b")));
    assert_eq!(cache.id_of("b"), Some(1));
    assert_eq!(cache.name_of(2), None);
    assert_eq!(cache.id_of("a"), None);
    assert_eq!(cache.name_of(3), Some(&name("c")));
    assert_eq!(cache.id_of("c"), Some(3));
}

#[test]
fn distinct_pairs_all_stay() {
    let mut cache = IdentityCache::new();
    for id in 0..50u32 {
        cache.insert(id, format!("name{}", id));
    }
    for id in 0..50u32 {
        assert_eq!(cache.name_of(id), Some(&format!("name{}", id)));
        assert_eq!(cache.id_of(&format!("name{}", id)), Some(id));
    }
}

#[test]
fn the_same_pair_twice_is_the_pair_once() {
    let mut cache = IdentityCache::new();
    cache.insert(1, name("a"));
    cache.insert(1, name("a"));
    assert_eq!(cache.name_of(1), Some(&name("a")));
    assert_eq!(cache.id_of("a"), Some(1));
}
