use wechaty::cache::PayloadCache;
use wechaty::schemas::contact::{ContactGender, ContactPayload, ContactType};
use wechaty::schemas::payload::Payload;

fn contact(id: &str, name: &str) -> Payload {
    Payload::Contact(ContactPayload {
        id: id.to_string(),
        gender: ContactGender::Unknown,
        contact_type: ContactType::Individual,
        name: name.to_string(),
        avatar: String::new(),
        address: String::new(),
        alias: String::new(),
        city: String::new(),
        friend: true,
        province: String::new(),
        signature: String::new(),
        star: false,
        weixin: String::new(),
        corporation: String::new(),
        title: String::new(),
        description: String::new(),
        coworker: false,
        phone: Vec::new(),
    })
}

#[test]
fn read_after_write_returns_stored_payload() {
    let mut cache = PayloadCache::new(3);
    cache.put("C1".to_string(), contact("C1", "Bob"));
    assert!(cache.contains(&"C1".to_string()));
    let got = cache.get(&"C1".to_string());
    assert_eq!(got, Some(contact("C1", "Bob")));
}

#[test]
fn pop_then_get_misses() {
    let mut cache = PayloadCache::new(3);
    cache.put("C1".to_string(), contact("C1", "Bob"));
    cache.pop(&"C1".to_string());
    assert!(!cache.contains(&"C1".to_string()));
    assert_eq!(cache.get(&"C1".to_string()), None);
    // invalidating an absent id is a no-op, never an error
    cache.pop(&"C1".to_string());
    assert_eq!(cache.len(), 0);
}

#[test]
fn capacity_plus_one_evicts_least_recently_used() {
    let mut cache = PayloadCache::new(2);
    assert_eq!(cache.cap(), 2);
    cache.put("A".to_string(), contact("A", "a"));
    cache.put("B".to_string(), contact("B", "b"));
    cache.put("C".to_string(), contact("C", "c"));
    assert_eq!(cache.len(), 2);
    assert!(!cache.contains(&"A".to_string()));
    assert!(cache.contains(&"B".to_string()));
    assert!(cache.contains(&"C".to_string()));
}

#[test]
fn get_refreshes_recency_before_eviction() {
    let mut cache = PayloadCache::new(2);
    cache.put("A".to_string(), contact("A", "a"));
    cache.put("B".to_string(), contact("B", "b"));
    // touch A so B becomes the least recently used entry
    let _ = cache.get(&"A".to_string());
    cache.put("C".to_string(), contact("C", "c"));
    assert!(cache.contains(&"A".to_string()));
    assert!(!cache.contains(&"B".to_string()));
    assert!(cache.contains(&"C".to_string()));
}

#[test]
fn key_list_is_most_recently_used_first() {
    let mut cache = PayloadCache::new(5);
    cache.put("A".to_string(), contact("A", "a"));
    cache.put("B".to_string(), contact("B", "b"));
    cache.put("C".to_string(), contact("C", "c"));
    assert_eq!(
        cache.key_list(),
        vec!["C".to_string(), "B".to_string(), "A".to_string()]
    );
    let _ = cache.get(&"A".to_string());
    assert_eq!(
        cache.key_list(),
        vec!["A".to_string(), "C".to_string(), "B".to_string()]
    );
}

#[test]
fn put_known_key_updates_in_place() {
    let mut cache = PayloadCache::new(2);
    cache.put("A".to_string(), contact("A", "a"));
    cache.put("B".to_string(), contact("B", "b"));
    cache.put("A".to_string(), contact("A", "a2"));
    assert_eq!(cache.len(), 2);
    assert_eq!(cache.get(&"A".to_string()), Some(contact("A", "a2")));
    assert!(cache.contains(&"B".to_string()));
}
