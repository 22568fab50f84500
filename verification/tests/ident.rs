use agent_tree::ident::fresh_uuid_text;
use agent_tree::ident::AgentTreeRequestKey;
use agent_tree::ident::ThreadId;

#[test]
fn thread_id_is_written_hyphenated() {
    let id = ThreadId { bits: 0xa1a2a3a4b1b2c1c2d1d2d3d4d5d6d7d8 };
    assert_eq!(id.to_text(), "a1a2a3a4-b1b2-c1c2-d1d2-d3d4d5d6d7d8");
    assert_eq!(ThreadId { bits: 0 }.to_text(), "00000000-0000-0000-0000-000000000000");
}

#[test]
fn thread_id_is_read_back() {
    let id = ThreadId { bits: 0xa1a2a3a4b1b2c1c2d1d2d3d4d5d6d7d8 };
    assert_eq!(ThreadId::from_string(&id.to_text()), Some(id));
    assert_eq!(
        ThreadId::from_string("A1A2A3A4B1B2C1C2D1D2D3D4D5D6D7D8"),
        Some(id)
    );
    let fresh = ThreadId::new();
    assert_eq!(ThreadId::from_string(&fresh.to_text()), Some(fresh));
}

#[test]
fn text_that_is_no_uuid_is_no_thread_id() {
    assert_eq!(ThreadId::from_string(""), None);
    assert_eq!(ThreadId::from_string("thread-1"), None);
    assert_eq!(ThreadId::from_string("a1a2a3a4-b1b2-c1c2-d1d2-d3d4d5d6d7"), None);
}

#[test]
fn fresh_ids_differ() {
    assert_ne!(ThreadId::new(), ThreadId::new());
    let text = fresh_uuid_text();
    assert_eq!(text.len(), 36);
    assert!(ThreadId::from_string(&text).is_some());
    assert_ne!(text, fresh_uuid_text());
}

#[test]
fn request_key_is_written_with_a_colon() {
    let key = AgentTreeRequestKey::new(ThreadId { bits: 1 }, "e1");
    assert_eq!(key.event_id, "e1");
    assert_eq!(key.thread_id, ThreadId { bits: 1 });
    assert_eq!(key.as_string(), "00000000-0000-0000-0000-000000000001:e1");
}

#[test]
fn request_keys_are_the_same_when_both_parts_are() {
    let key = AgentTreeRequestKey::new(ThreadId { bits: 1 }, "e1");
    assert!(key.same(&key.clone()));
    assert!(!key.same(&AgentTreeRequestKey::new(ThreadId { bits: 2 }, "e1")));
    assert!(!key.same(&AgentTreeRequestKey::new(ThreadId { bits: 1 }, "e2")));
    assert_eq!(key.clone(), key);
}

#[test]
fn fresh_thread_ids_are_random_uuids_of_version_four() {
    for _ in 0..64 {
        let id = ThreadId::new();
        assert_eq!((id.bits >> 76) & 0xf, 4);
        assert_eq!((id.bits >> 62) & 0x3, 2);
        let text = id.to_text();
        assert_eq!(text.as_bytes()[14], b'4');
        assert!(matches!(text.as_bytes()[19], b'8' | b'9' | b'a' | b'b'));
    }
}
