use chat_analytics::events::AnalyticsEventRow;
use chat_analytics::session::{SessionStore, SESSION_TIMEOUT};

fn row(client: &str, client_ts: i64, server_ts: i64) -> AnalyticsEventRow {
    let mut r = AnalyticsEventRow::default();
    r.client_id = client.to_string();
    r.client_ts = client_ts;
    r.server_ts = server_ts;
    r
}

#[test]
fn store_read_after_write() {
    let mut s = SessionStore::new();
    assert_eq!(s.get(&"a".to_string()), None);
    s.insert("a".to_string(), "s1".to_string(), 10);
    s.insert("b".to_string(), "s2".to_string(), 20);
    assert_eq!(s.get(&"a".to_string()), Some(("s1".to_string(), 10)));
    s.insert("a".to_string(), "s3".to_string(), 30);
    assert_eq!(s.get(&"a".to_string()), Some(("s3".to_string(), 30)));
    assert_eq!(s.get(&"b".to_string()), Some(("s2".to_string(), 20)));
    assert_eq!(s.get(&"c".to_string()), None);
}

#[test]
fn new_client_gets_fresh_session() {
    let mut s = SessionStore::new();
    let mut r = row("c1", 100, 200);
    r.assign_session(&mut s, "fresh-1".to_string());
    assert_eq!(r.session_id, "fresh-1");
    // recorded at the client time
    assert_eq!(s.get(&"c1".to_string()), Some(("fresh-1".to_string(), 100)));
}

#[test]
fn session_continues_within_timeout() {
    let mut s = SessionStore::new();
    let mut r1 = row("c1", 100, 200);
    r1.assign_session(&mut s, "fresh-1".to_string());
    let mut r2 = row("c1", 100 + SESSION_TIMEOUT - 1, 300);
    r2.assign_session(&mut s, "fresh-2".to_string());
    assert_eq!(r2.session_id, "fresh-1");
    // recorded at the server time
    assert_eq!(s.get(&"c1".to_string()), Some(("fresh-1".to_string(), 300)));
}

#[test]
fn session_expires_after_timeout() {
    let mut s = SessionStore::new();
    s.insert("c1".to_string(), "old".to_string(), 1000);
    let mut r = row("c1", 1000 + SESSION_TIMEOUT, 5000);
    r.assign_session(&mut s, "fresh-2".to_string());
    assert_eq!(r.session_id, "fresh-2");
    assert_eq!(s.get(&"c1".to_string()), Some(("fresh-2".to_string(), 5000)));
}

#[test]
fn other_clients_keep_their_sessions() {
    let mut s = SessionStore::new();
    s.insert("other".to_string(), "theirs".to_string(), 7);
    let mut r = row("c1", 100, 200);
    r.assign_session(&mut s, "mine".to_string());
    assert_eq!(s.get(&"other".to_string()), Some(("theirs".to_string(), 7)));
}

#[test]
fn generated_session_ids_are_uuid_v7() {
    let mut s = SessionStore::new();
    let mut r = row("c1", 100, 200);
    r.set_session_id(&mut s);
    let id = r.session_id.clone();
    assert_eq!(id.len(), 36);
    let chars: Vec<char> = id.chars().collect();
    for i in [8usize, 13, 18, 23] {
        assert_eq!(chars[i], '-');
    }
    assert_eq!(chars[14], '7');
    assert!(chars
        .iter()
        .enumerate()
        .all(|(i, c)| [8usize, 13, 18, 23].contains(&i) || c.is_ascii_digit() || ('a'..='f').contains(c)));
    assert_eq!(s.get(&"c1".to_string()), Some((id.clone(), 100)));

    // a second event right after keeps the session
    let mut r2 = row("c1", 150, 250);
    r2.set_session_id(&mut s);
    assert_eq!(r2.session_id, id);

    // another client gets a different id
    let mut r3 = row("c2", 150, 250);
    r3.set_session_id(&mut s);
    assert_ne!(r3.session_id, id);
}
