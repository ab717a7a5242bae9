use nojs_chat::config::Config;
use nojs_chat::engine::{Action, Engine};
use nojs_chat::session::SessionState;
use nojs_chat::store::Store;
use rusqlite::Connection;

fn b(s: &str) -> Vec<u8> {
    s.as_bytes().to_vec()
}

fn fresh_store() -> Store {
    let conn = Connection::open_in_memory().unwrap();
    conn.execute(
        "CREATE TABLE IF NOT EXISTS users (id INTEGER PRIMARY KEY, username TEXT UNIQUE, password TEXT)",
        [],
    )
    .unwrap();
    conn.execute(
        "CREATE TABLE IF NOT EXISTS messages (id INTEGER PRIMARY KEY, user_id INTEGER, content TEXT, ts DATETIME DEFAULT CURRENT_TIMESTAMP)",
        [],
    )
    .unwrap();
    Store::new(conn)
}

#[test]
fn credentials_need_an_exact_match() {
    let store = fresh_store();
    assert!(store.register_user(&b("alice"), &b("secret")));
    assert!(store.verify_credential(&b("alice"), &b("secret")));
    assert!(!store.verify_credential(&b("alice"), &b("wrong")));
    assert!(!store.verify_credential(&b("bob"), &b("secret")));
    assert!(store.login_user(&b("alice"), &b("secret")).is_some());
    assert!(store.login_user(&b("alice"), &b("wrong")).is_none());
}

#[test]
fn rejected_credential_never_creates_a_registry_entry() {
    let store = fresh_store();
    assert!(store.register_user(&b("alice"), &b("secret")));
    let mut e = Engine::new();
    let mut s = e.new_session();
    let ok = store.authenticate(&mut s, &b("alice"), &b("wrong"));
    assert!(!ok);
    assert_eq!(s.state, SessionState::Connecting);
    assert!(!e.registry.contains(s.session_id));
    assert_eq!(e.registry.len(), 0);
}

#[test]
fn duplicate_registration_is_refused() {
    let store = fresh_store();
    assert!(store.register_user(&b("alice"), &b("one")));
    assert!(!store.register_user(&b("alice"), &b("two")));
    // the first credential still stands
    assert!(store.verify_credential(&b("alice"), &b("one")));
    assert!(!store.verify_credential(&b("alice"), &b("two")));
}

#[test]
fn append_needs_a_known_identity() {
    let store = fresh_store();
    assert!(!store.append_message(&b("ghost"), &b("boo")));
    assert!(store.register_user(&b("alice"), &b("secret")));
    assert!(store.append_message(&b("alice"), &b("hello")));
    let rows = store.recent_messages();
    assert_eq!(rows.len(), 1);
    assert_eq!(rows[0], (b("alice"), b("hello")));
}

#[test]
fn empty_store_yields_empty_history() {
    let store = fresh_store();
    assert!(store.recent_messages().is_empty());
    assert!(store.recent_rendered().is_empty());
}

#[test]
fn history_is_capped_at_twenty() {
    let store = fresh_store();
    assert!(store.register_user(&b("alice"), &b("secret")));
    for i in 0..25 {
        assert!(store.append_message(&b("alice"), &b(&format!("m{}", i))));
    }
    assert_eq!(store.recent_messages().len(), 20);
    let lines = store.recent_rendered();
    assert_eq!(lines.len(), 20);
    for line in &lines {
        assert!(line.starts_with(b"alice: "));
    }
}

#[test]
fn three_sessions_share_one_room() {
    let store = fresh_store();
    let mut e = Engine::new();
    for (u, p) in [("A", "pa"), ("B", "pb"), ("C", "pc")] {
        assert!(store.register_user(&b(u), &b(p)));
    }
    let mut sa = e.new_session();
    assert!(store.authenticate(&mut sa, &b("A"), &b("pa")));
    let ha = store.recent_rendered();
    assert!(ha.is_empty());
    e.join(&mut sa, &ha);

    let mut sb = e.new_session();
    assert!(store.authenticate(&mut sb, &b("B"), &b("pb")));
    e.join(&mut sb, &store.recent_rendered());

    // A speaks; the append precedes the fan-out and B sees the line live
    let acts = e.handle_line(&sa, &b("hello"));
    match &acts[0] {
        Action::Append { identity, content } => {
            assert!(store.append_message(identity, content));
        },
        _ => panic!("the append must come first"),
    }
    let mut b_saw = false;
    for a in &acts[1..] {
        if let Action::Send { session_id, line } = a {
            if *session_id == sb.session_id {
                assert_eq!(line, &b("A: hello"));
                b_saw = true;
            }
        }
    }
    assert!(b_saw);

    // C joins later: the history replay carries the stored line
    let mut sc = e.new_session();
    assert!(store.authenticate(&mut sc, &b("C"), &b("pc")));
    let rows = store.recent_messages();
    assert!(rows.iter().any(|(u, c)| u == &b("A") && c == &b("hello")));
    let hc = store.recent_rendered();
    assert!(hc.iter().any(|l| l == &b("A: hello")));
    let join_acts = e.join(&mut sc, &hc);
    assert!(join_acts.iter().any(|a| matches!(a, Action::Send { session_id, line }
        if *session_id == sc.session_id && line == &b("A: hello"))));
}

#[test]
fn config_defaults_and_overrides() {
    let d = Config::default();
    assert_eq!(d.http_port, 8080);
    assert_eq!(d.ssh_port, 2222);
    assert_eq!(d.chat_name, "NoJS Chat");
    let m = Config::default().merged(Some(80), None, Some("Room".to_string()));
    assert_eq!(m.http_port, 80);
    assert_eq!(m.ssh_port, 2222);
    assert_eq!(m.chat_name, "Room");
    let unchanged = Config::default().merged(None, None, None);
    assert_eq!(unchanged.http_port, 8080);
    assert_eq!(unchanged.chat_name, "NoJS Chat");
}
