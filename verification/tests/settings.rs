use omnibus_pages::settings::{
    endpoint_url, relative_time, scroll_stops_status_line, theme_order, ChangePasswordState,
    FormatSelection, KindleEmailState, ScrollStopsState, ThemeKind, sync_headline, sync_status_row,
};

#[test]
fn theme_order_matches_css_attrs() {
    let attrs: Vec<&str> = theme_order().iter().map(|(_, k)| k.as_attr()).collect();
    assert_eq!(attrs, ["dark", "black", "light", "sepia"]);
    let captions: Vec<&str> = theme_order().iter().map(|(c, _)| *c).collect();
    assert_eq!(captions, ["Dark", "Black", "Light", "Sepia"]);
    assert_eq!(ThemeKind::Sepia.as_attr(), "sepia");
}

#[test]
fn endpoint_url_joins_origin_and_token() {
    assert_eq!(
        endpoint_url("https://omni.example.com", "tok123"),
        "https://omni.example.com/kobo/tok123"
    );
}

#[test]
fn endpoint_url_trims_a_trailing_slash_on_the_origin() {
    assert_eq!(endpoint_url("http://localhost:3000/", "abc"), "http://localhost:3000/kobo/abc");
}

#[test]
fn endpoint_url_trims_every_trailing_slash() {
    assert_eq!(endpoint_url("http://h///", "t"), "http://h/kobo/t");
    assert_eq!(endpoint_url("", "t"), "/kobo/t");
}

#[test]
fn scroll_stops_status_line_describes_how_the_page_reads() {
    assert_eq!(scroll_stops_status_line(None), "Checking…");
    assert_eq!(
        scroll_stops_status_line(Some(true)),
        "Book details snap through one panel at a time."
    );
    assert_eq!(
        scroll_stops_status_line(Some(false)),
        "Book details scroll continuously, top to bottom."
    );
}

#[test]
fn scroll_stops_switch_ignores_clicks_until_seeded_and_while_saving() {
    let mut s = ScrollStopsState::new();
    assert_eq!(s.toggle(), None);
    s.seed(false);
    assert_eq!(s.toggle(), Some(true));
    assert_eq!(s.shown, Some(true));
    assert_eq!(s.confirmed, Some(false));
    assert_eq!(s.toggle(), None);
    s.finish(Ok(()));
    assert_eq!(s.confirmed, Some(true));
    assert_eq!(s.shown, Some(true));
    assert!(!s.saving);
}

#[test]
fn scroll_stops_switch_reverts_a_refused_save_and_keeps_the_error() {
    let mut s = ScrollStopsState::new();
    s.seed(true);
    assert_eq!(s.toggle(), Some(false));
    s.finish(Err("server said no".to_string()));
    assert_eq!(s.shown, Some(true));
    assert_eq!(s.confirmed, Some(true));
    assert_eq!(s.error.as_deref(), Some("server said no"));
    s.seed(false);
    assert_eq!(s.confirmed, Some(true));
}

#[test]
fn relative_time_scales_through_minutes_hours_and_days() {
    assert_eq!(relative_time(1_000, 1_000), "just now");
    assert_eq!(relative_time(1_059, 1_000), "just now");
    assert_eq!(relative_time(1_060, 1_000), "1m ago");
    assert_eq!(relative_time(1_000 + 3_599, 1_000), "59m ago");
    assert_eq!(relative_time(1_000 + 3_600, 1_000), "1h ago");
    assert_eq!(relative_time(1_000 + 86_400 * 3, 1_000), "3d ago");
    assert_eq!(relative_time(1_000, 5_000), "just now");
}

#[test]
fn format_selection_keeps_names_sorted_and_unique() {
    let mut sel = FormatSelection::from_saved(&vec!["PDF".to_string(), "EPUB".to_string(), "PDF".to_string()]);
    assert_eq!(sel.formats(), vec!["EPUB".to_string(), "PDF".to_string()]);
    sel.toggle("CBZ".to_string(), true);
    sel.toggle("EPUB".to_string(), true);
    assert_eq!(sel.formats(), vec!["CBZ".to_string(), "EPUB".to_string(), "PDF".to_string()]);
    sel.toggle("PDF".to_string(), false);
    sel.toggle("MOBI".to_string(), false);
    assert_eq!(sel.formats(), vec!["CBZ".to_string(), "EPUB".to_string()]);
    assert!(sel.contains("CBZ"));
    assert!(!sel.contains("PDF"));
}

#[test]
fn format_selection_lists_saved_tokens_outside_the_known_vocabulary() {
    let sel = FormatSelection::from_saved(&vec!["zzz".to_string(), "EPUB".to_string(), "AAX".to_string()]);
    assert_eq!(sel.unknown_saved(&["EPUB", "PDF"]), vec!["AAX".to_string(), "zzz".to_string()]);
    assert_eq!(sel.unknown_saved(&["EPUB", "AAX", "zzz"]), Vec::<String>::new());
}

#[test]
fn kindle_form_refuses_a_blank_address_and_sends_the_trimmed_one() {
    let mut k = KindleEmailState::new();
    k.on_input("   ".to_string());
    assert_eq!(k.begin_save(), None);
    assert_eq!(k.msg.as_deref(), Some("Enter a Kindle email to save."));
    assert!(k.msg_is_error);
    k.on_input("  me@kindle.com ".to_string());
    let sent = k.begin_save();
    assert_eq!(sent.as_deref(), Some("me@kindle.com"));
    assert!(k.in_flight);
    k.finish_save(sent.unwrap(), true);
    assert!(k.connected());
    assert_eq!(k.msg.as_deref(), Some("Kindle email saved."));
    assert!(!k.msg_is_error);
    assert!(!k.in_flight);
}

#[test]
fn kindle_form_hydrates_and_clears() {
    let mut k = KindleEmailState::new();
    k.hydrate(None);
    assert!(!k.connected());
    k.hydrate(Some("a@kindle.com".to_string()));
    assert_eq!(k.email_input, "a@kindle.com");
    assert!(k.connected());
    k.begin_clear();
    k.finish_clear(false);
    assert!(k.connected());
    assert_eq!(k.msg.as_deref(), Some("Failed to clear Kindle email."));
    k.begin_clear();
    k.finish_clear(true);
    assert!(!k.connected());
    assert_eq!(k.email_input, "");
    assert_eq!(k.msg.as_deref(), Some("Kindle email cleared."));
}

#[test]
fn kindle_form_reports_a_failed_save() {
    let mut k = KindleEmailState::new();
    k.on_input("x@kindle.com".to_string());
    let sent = k.begin_save().unwrap();
    k.finish_save(sent, false);
    assert!(!k.connected());
    assert_eq!(k.msg.as_deref(), Some("Failed to save Kindle email \u{2014} check the address."));
    assert!(k.msg_is_error);
}

#[test]
fn change_password_needs_both_fields_and_clears_them_on_success() {
    let mut p = ChangePasswordState::new();
    p.on_current_input("old".to_string());
    assert_eq!(p.begin_submit(), None);
    assert_eq!(p.msg.as_deref(), Some("Enter your current and new password."));
    p.on_new_input("n3w-Passw0rd".to_string());
    assert_eq!(p.msg, None);
    assert_eq!(p.begin_submit(), Some(("old".to_string(), "n3w-Passw0rd".to_string())));
    assert!(p.in_flight);
    p.finish_submit(Ok(()));
    assert_eq!(p.current, "");
    assert_eq!(p.new_password, "");
    assert_eq!(p.msg.as_deref(), Some("Password changed."));
    assert!(!p.in_flight);
}

#[test]
fn change_password_keeps_the_form_on_a_refusal() {
    let mut p = ChangePasswordState::new();
    p.on_current_input("wrong".to_string());
    p.on_new_input("whatever".to_string());
    p.begin_submit();
    p.finish_submit(Err("current password is incorrect".to_string()));
    assert_eq!(p.current, "wrong");
    assert_eq!(p.msg.as_deref(), Some("current password is incorrect"));
    assert!(p.msg_is_error);
}

#[test]
fn sync_headline_reads_connectivity_and_queue() {
    assert_eq!(sync_headline(true, 0), "Synced");
    assert_eq!(sync_headline(true, 3), "Syncing \u{2014} 3 pending");
    assert_eq!(sync_headline(false, 0), "Offline");
    assert_eq!(sync_headline(false, 2), "Offline \u{2014} 2 changes waiting to sync");
}

#[test]
fn sync_status_row_shows_dropped_and_last_sync_only_when_known() {
    let html = sync_status_row(true, 0, 0, None, 1_000);
    assert_eq!(
        html,
        "<div class=\"m-account-sync\" data-testid=\"account-sync-status\"><div class=\"m-account-sync-line\"><span class=\"m-account-sync-dot on\" aria-hidden=\"true\"></span>Synced</div></div>"
    );
    let html = sync_status_row(false, 1, 4, Some(1_000 - 7_200), 1_000);
    assert!(html.contains("class=\"m-account-sync-dot\""));
    assert!(html.contains("4 changes couldn&#39;t sync and were discarded."));
    assert!(html.contains("Last synced 2h ago"));
}
