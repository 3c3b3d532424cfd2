use creature_agent::memory::ConversationMemory;
use creature_agent::messages::{Message, Role};

fn user(text: &str) -> Message {
    Message::text(Role::User, text.to_string())
}

fn content_of(m: &Message) -> &str {
    m.content.as_deref().unwrap()
}

#[test]
fn empty_memory_is_empty() {
    let m = ConversationMemory::new(10);
    assert_eq!(m.len(), 0);
    assert_eq!(m.capacity(), 10);
    assert!(m.get().is_empty());
}

#[test]
fn add_appends_in_order() {
    let mut m = ConversationMemory::new(10);
    m.add(user("a"));
    m.add(user("b"));
    m.add(user("c"));
    let snap = m.get();
    assert_eq!(snap.len(), 3);
    assert_eq!(content_of(&snap[0]), "a");
    assert_eq!(content_of(&snap[1]), "b");
    assert_eq!(content_of(&snap[2]), "c");
}

#[test]
fn length_never_exceeds_capacity() {
    let mut m = ConversationMemory::new(3);
    for i in 0..20 {
        m.add(user(&format!("m{}", i)));
        assert!(m.len() <= 3);
    }
}

#[test]
fn eviction_drops_oldest_first() {
    let mut m = ConversationMemory::new(3);
    m.add(user("a"));
    m.add(user("b"));
    m.add(user("c"));
    m.add(user("d"));
    let snap = m.get();
    assert_eq!(snap.len(), 3);
    assert_eq!(content_of(&snap[0]), "b");
    assert_eq!(content_of(&snap[1]), "c");
    assert_eq!(content_of(&snap[2]), "d");
}

#[test]
fn after_capacity_plus_one_adds_earliest_is_absent() {
    let cap = 10;
    let mut m = ConversationMemory::new(cap);
    for i in 0..(cap + 1) {
        m.add(user(&format!("m{}", i)));
    }
    let snap = m.get();
    assert_eq!(snap.len(), cap);
    for (k, msg) in snap.iter().enumerate() {
        assert_eq!(content_of(msg), format!("m{}", k + 1));
    }
}

#[test]
fn snapshot_is_not_invalidated_by_later_adds() {
    let mut m = ConversationMemory::new(2);
    m.add(user("a"));
    let snap = m.get();
    m.add(user("b"));
    m.add(user("c"));
    assert_eq!(snap.len(), 1);
    assert_eq!(content_of(&snap[0]), "a");
    let snap2 = m.get();
    assert_eq!(snap2.len(), 2);
    assert_eq!(content_of(&snap2[0]), "b");
    assert_eq!(content_of(&snap2[1]), "c");
}

#[test]
fn zero_capacity_memory_stays_empty() {
    let mut m = ConversationMemory::new(0);
    m.add(user("a"));
    assert_eq!(m.len(), 0);
}
