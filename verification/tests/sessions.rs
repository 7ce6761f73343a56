use omnibus_pages::sessions::{SessionsCard, SessionView, SessionsState};

fn session(id: i64, kind: &str, is_current: bool) -> SessionView {
    SessionView { id, kind: kind.to_string(), is_current, last_used_at: 1_700_000_000 }
}

#[test]
fn the_card_lists_sessions_and_hides_revoke_on_this_device() {
    let mut s = SessionsState::new();
    assert!(SessionsCard(&s).contains("data-testid=\"account-sessions-empty\""));
    s.loaded(Ok(vec![session(1, "web", true), session(2, "ios", false)]));
    let html = SessionsCard(&s);
    assert!(html.contains(" (this device)"));
    assert!(!html.contains("account-session-revoke-1"));
    assert!(html.contains("data-testid=\"account-session-revoke-2\""));
    assert!(html.contains("Last used 2023-11-14"));
    assert!(!html.contains("disabled"));
}

#[test]
fn one_revoke_at_a_time_and_a_reload_after_success() {
    let mut s = SessionsState::new();
    s.loaded(Ok(vec![session(1, "web", true), session(2, "ios", false), session(3, "kobo", false)]));
    assert!(s.begin_revoke(2));
    assert!(!s.begin_revoke(3));
    assert!(SessionsCard(&s).contains(" disabled"));
    assert!(s.finish_revoke(Ok(())));
    assert_eq!(s.msg.as_deref(), Some("Session revoked."));
    assert_eq!(s.busy_id, None);
    assert!(s.begin_revoke(3));
    assert!(!s.finish_revoke(Err("not found".to_string())));
    assert!(s.msg_is_error);
    assert!(SessionsCard(&s).contains("settings-status error"));
}
