use nojs_chat::command::{classify, help_text_vec, Command};
use nojs_chat::engine::{Action, Engine};
use nojs_chat::history::replay_window;
use nojs_chat::line::{
    bytes_eq, render_chat_line, render_joined_line, render_left_line, trim_bytes,
};
use nojs_chat::session::SessionState;

fn b(s: &str) -> Vec<u8> {
    s.as_bytes().to_vec()
}

fn sends_to(acts: &[Action], sid: u64) -> Vec<Vec<u8>> {
    let mut out = Vec::new();
    for a in acts {
        if let Action::Send { session_id, line } = a {
            if *session_id == sid {
                out.push(line.clone());
            }
        }
    }
    out
}

#[test]
fn trim_and_eq() {
    assert_eq!(trim_bytes(&b("  hi there\r\n")), b("hi there"));
    assert_eq!(trim_bytes(&b("")), b(""));
    assert_eq!(trim_bytes(&b(" \t \r\n")), b(""));
    assert_eq!(trim_bytes(&b("x")), b("x"));
    assert!(bytes_eq(&b("abc"), &b("abc")));
    assert!(!bytes_eq(&b("abc"), &b("abd")));
    assert!(!bytes_eq(&b("abc"), &b("ab")));
}

#[test]
fn rendered_lines() {
    assert_eq!(render_chat_line(&b("A"), &b("hi")), b("A: hi"));
    assert_eq!(render_joined_line(&b("bob")), b("* bob joined"));
    assert_eq!(render_left_line(&b("bob")), b("* bob left"));
    assert_eq!(help_text_vec(), b("Commands:\n/help - this help\n/quit - exit chat\n"));
}

#[test]
fn classify_lines() {
    assert!(matches!(classify(&b("")), Command::Empty));
    assert!(matches!(classify(&b("   \r\n")), Command::Empty));
    assert!(matches!(classify(&b("/help")), Command::Help));
    assert!(matches!(classify(&b(" /quit ")), Command::Quit));
    assert!(matches!(classify(&vec![3u8]), Command::Interrupt));
    match classify(&b("  hi there ")) {
        Command::Chat(c) => assert_eq!(c, b("hi there")),
        _ => panic!("expected chat content"),
    }
    // "/help me" is chat, not a command
    assert!(matches!(classify(&b("/help me")), Command::Chat(_)));
}

#[test]
fn whitespace_beyond_ascii_is_trimmed() {
    // no-break space, ogham space mark, em space, ideographic space
    assert_eq!(trim_bytes(&b("\u{A0}hi\u{A0}")), b("hi"));
    assert_eq!(trim_bytes(&b("\u{1680}\u{2003}x\u{3000}")), b("x"));
    assert_eq!(trim_bytes(&b("\u{85}\u{2028}\u{202F}\u{205F}")), b(""));
    assert!(matches!(classify(&b("\u{A0}/quit\u{A0}")), Command::Quit));
    assert!(matches!(classify(&b("\u{2000}\u{A0} \t")), Command::Empty));
    // a bare continuation byte is not whitespace and survives the trim
    assert_eq!(trim_bytes(&vec![0x80u8, 0x41, 0x80]), vec![0x80u8, 0x41, 0x80]);
    // a leading byte without its continuation is kept too
    assert_eq!(trim_bytes(&vec![0xC2u8, 0x41]), vec![0xC2u8, 0x41]);
}

#[test]
fn membership_follows_joins_and_leaves() {
    let mut e = Engine::new();
    let mut a = e.new_session();
    let mut bs = e.new_session();
    let mut c = e.new_session();
    for s in [&mut a, &mut bs, &mut c] {
        s.identity = b("u");
        s.state = SessionState::Authenticated;
    }
    let no_history: Vec<Vec<u8>> = Vec::new();
    e.join(&mut a, &no_history);
    assert!(e.registry.contains(a.session_id));
    assert!(!e.registry.contains(bs.session_id));
    e.join(&mut bs, &no_history);
    assert!(e.registry.contains(a.session_id) && e.registry.contains(bs.session_id));
    e.close_session(&mut a);
    assert!(!e.registry.contains(a.session_id));
    assert!(e.registry.contains(bs.session_id));
    e.join(&mut c, &no_history);
    assert_eq!(e.registry.len(), 2);
    e.close_session(&mut c);
    e.close_session(&mut bs);
    assert_eq!(e.registry.len(), 0);
}

#[test]
fn broadcast_reaches_every_joined_sink() {
    let mut e = Engine::new();
    let mut ids = Vec::new();
    let no_history: Vec<Vec<u8>> = Vec::new();
    for name in ["a", "b", "c"] {
        let mut s = e.new_session();
        s.identity = b(name);
        s.state = SessionState::Authenticated;
        e.join(&mut s, &no_history);
        ids.push(s.session_id);
    }
    let acts = e.broadcast(&b("news"));
    assert_eq!(acts.len(), 3);
    for (i, a) in acts.iter().enumerate() {
        match a {
            Action::Send { session_id, line } => {
                assert_eq!(*session_id, ids[i]);
                assert_eq!(line, &b("news"));
            },
            _ => panic!("broadcast must only send"),
        }
    }
}

#[test]
fn replay_window_is_capped_and_reversed() {
    let mut rows: Vec<(Vec<u8>, Vec<u8>)> = Vec::new();
    // most recent first: m24, m23, ..., m0
    for i in (0..25).rev() {
        rows.push((b("u"), b(&format!("m{}", i))));
    }
    let lines = replay_window(&rows);
    assert_eq!(lines.len(), 20);
    // oldest of the window first: m5 .. m24
    assert_eq!(lines[0], b("u: m5"));
    assert_eq!(lines[19], b("u: m24"));
    for w in lines.windows(2) {
        // rendered from consecutive rows, so order is non-decreasing in time
        assert_ne!(w[0], w[1]);
    }
    let short = replay_window(&vec![(b("u"), b("only"))]);
    assert_eq!(short, vec![b("u: only")]);
    let empty = replay_window(&Vec::new());
    assert!(empty.is_empty());
}

#[test]
fn quit_twice_has_no_second_effect() {
    let mut e = Engine::new();
    let mut a = e.new_session();
    let mut w = e.new_session();
    a.identity = b("ann");
    a.state = SessionState::Authenticated;
    w.identity = b("watcher");
    w.state = SessionState::Authenticated;
    let no_history: Vec<Vec<u8>> = Vec::new();
    e.join(&mut a, &no_history);
    e.join(&mut w, &no_history);
    let quit_acts = e.handle_line(&a, &b("/quit"));
    assert_eq!(quit_acts.len(), 1);
    assert!(matches!(quit_acts[0], Action::Disconnect { session_id } if session_id == a.session_id));
    let first = e.close_session(&mut a);
    // departure notice to the remaining session
    assert_eq!(sends_to(&first, w.session_id), vec![b("* ann left")]);
    assert_eq!(a.state, SessionState::Closed);
    // a second quit on the closed session: no duplicate departure broadcast
    let second = e.close_session(&mut a);
    assert!(second.is_empty());
    assert_eq!(e.registry.len(), 1);
}

#[test]
fn two_sessions_chat_live() {
    let mut e = Engine::new();
    let mut a = e.new_session();
    let mut bs = e.new_session();
    a.identity = b("A");
    a.state = SessionState::Authenticated;
    bs.identity = b("B");
    bs.state = SessionState::Authenticated;
    let no_history: Vec<Vec<u8>> = Vec::new();
    let join_a = e.join(&mut a, &no_history);
    // A is announced to itself, being registered already
    assert_eq!(sends_to(&join_a, a.session_id), vec![b("* A joined")]);
    let join_b = e.join(&mut bs, &no_history);
    assert_eq!(sends_to(&join_b, a.session_id), vec![b("* B joined")]);
    let acts = e.handle_line(&a, &b("hello"));
    // persistence first, then the fan-out
    assert!(matches!(&acts[0], Action::Append { identity, content }
        if identity == &b("A") && content == &b("hello")));
    assert_eq!(sends_to(&acts, bs.session_id), vec![b("A: hello")]);
    assert_eq!(sends_to(&acts, a.session_id), vec![b("A: hello")]);
}

#[test]
fn help_reaches_only_the_issuer() {
    let mut e = Engine::new();
    let mut a = e.new_session();
    let mut bs = e.new_session();
    a.identity = b("A");
    a.state = SessionState::Authenticated;
    bs.identity = b("B");
    bs.state = SessionState::Authenticated;
    let no_history: Vec<Vec<u8>> = Vec::new();
    e.join(&mut a, &no_history);
    e.join(&mut bs, &no_history);
    let acts = e.handle_line(&a, &b("/help"));
    assert_eq!(acts.len(), 1);
    assert_eq!(sends_to(&acts, a.session_id), vec![help_text_vec()]);
    assert!(sends_to(&acts, bs.session_id).is_empty());
}

#[test]
fn empty_line_does_nothing() {
    let mut e = Engine::new();
    let mut a = e.new_session();
    a.identity = b("A");
    a.state = SessionState::Authenticated;
    let no_history: Vec<Vec<u8>> = Vec::new();
    e.join(&mut a, &no_history);
    assert!(e.handle_line(&a, &b("   ")).is_empty());
    assert!(e.handle_line(&a, &b("")).is_empty());
}

#[test]
fn interrupt_byte_disconnects() {
    let mut e = Engine::new();
    let mut a = e.new_session();
    a.identity = b("A");
    a.state = SessionState::Authenticated;
    let no_history: Vec<Vec<u8>> = Vec::new();
    e.join(&mut a, &no_history);
    let acts = e.handle_line(&a, &vec![3u8]);
    assert_eq!(acts.len(), 1);
    assert!(matches!(acts[0], Action::Disconnect { session_id } if session_id == a.session_id));
}

#[test]
fn history_replayed_to_the_joiner_before_the_announcement() {
    let mut e = Engine::new();
    let mut a = e.new_session();
    a.identity = b("A");
    a.state = SessionState::Authenticated;
    let history = vec![b("x: one"), b("y: two")];
    let acts = e.join(&mut a, &history);
    let own = sends_to(&acts, a.session_id);
    assert_eq!(own, vec![b("x: one"), b("y: two"), b("* A joined")]);
}

#[test]
fn session_ids_are_monotone_and_never_reused() {
    let mut e = Engine::new();
    let s1 = e.new_session();
    let s2 = e.new_session();
    let mut s3 = e.new_session();
    assert!(s1.session_id < s2.session_id && s2.session_id < s3.session_id);
    s3.identity = b("c");
    s3.state = SessionState::Authenticated;
    let no_history: Vec<Vec<u8>> = Vec::new();
    e.join(&mut s3, &no_history);
    e.close_session(&mut s3);
    let s4 = e.new_session();
    assert!(s4.session_id > s3.session_id);
}
