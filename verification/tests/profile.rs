use omnibus_pages::profile::{
    account_identity,
    card_unresolved, card_with_avatar, card_without_avatar, credential_status_message,
    identity_subline, profile_card, role_label, ProfileCardState, UserSummary,
};

fn resolved_user(display_name: Option<&str>, has_avatar: bool) -> UserSummary {
    UserSummary {
        id: 42,
        username: "reader".to_string(),
        is_admin: false,
        can_upload: false,
        can_edit: false,
        can_download: false,
        kindle_email: None,
        display_name: display_name.map(str::to_string),
        has_avatar,
        hidden_formats: Vec::new(),
    }
}

#[test]
fn tests_profile_card_renders_the_unresolved_steady_state_before_current_user_resolves() {
    let html = card_unresolved(0);
    assert!(html.contains("data-testid=\"account-profile-card\""));
    assert!(html.contains("data-testid=\"display-name-input\""));
    assert!(html.contains("value=\"\""));
    assert!(!html.contains("data-testid=\"avatar-remove\""));
    assert!(!html.contains("data-testid=\"avatar-status\""));
    assert!(!html.contains("data-testid=\"profile-status\""));
}

#[test]
fn tests_profile_card_leaves_the_name_input_unseeded_on_first_paint_even_with_a_resolved_user() {
    let html = card_with_avatar(&resolved_user(Some("Jane Doe"), true), 3);
    assert!(html.contains("data-testid=\"display-name-input\""));
    assert!(html.contains("value=\"\""));
    assert!(html.contains("placeholder=\"Jane Doe\""));
}

#[test]
fn tests_profile_card_shows_remove_and_busts_the_avatar_url_when_the_user_has_one() {
    let html = card_with_avatar(&resolved_user(Some("Jane Doe"), true), 3);
    assert!(html.contains("data-testid=\"avatar-remove\""));
    assert!(html.contains("/api/users/42/avatar?v=3"));
}

#[test]
fn tests_profile_card_hides_remove_and_the_avatar_url_when_the_user_has_none() {
    let html = card_without_avatar(&resolved_user(None, false));
    assert!(!html.contains("data-testid=\"avatar-remove\""));
    assert!(!html.contains("/api/users/42/avatar"));
}

#[test]
fn tests_avatar_status_slot_renders_a_remove_failure_with_error_styling() {
    let html = credential_status_message(
        "avatar-status",
        Some("Remove failed: connection refused"),
        true,
    );
    assert!(html.contains("data-testid=\"avatar-status\""));
    assert!(html.contains("settings-status error"));
    assert!(html.contains("Remove failed: connection refused"));
}

#[test]
fn tests_avatar_status_slot_renders_an_upload_failure_with_error_styling() {
    let html = credential_status_message(
        "avatar-status",
        Some("Upload failed: 413 Payload Too Large"),
        true,
    );
    assert!(html.contains("settings-status error"));
    assert!(html.contains("Upload failed: 413 Payload Too Large"));
}

#[test]
fn tests_profile_status_slot_renders_the_save_confirmation_without_error_styling() {
    let html = credential_status_message("profile-status", Some("Profile saved."), false);
    assert!(html.contains("data-testid=\"profile-status\""));
    assert!(html.contains("settings-status success"));
    assert!(!html.contains("settings-status error"));
}

#[test]
fn status_slot_is_empty_without_a_message() {
    assert_eq!(credential_status_message("profile-status", None, true), "");
}

#[test]
fn role_label_maps_admin_to_owner() {
    assert_eq!(role_label(true), "Owner");
    assert_eq!(role_label(false), "Reader");
}

#[test]
fn identity_subline_joins_username_and_role() {
    assert_eq!(identity_subline("alice", true), "alice \u{00b7} Owner");
    assert_eq!(identity_subline("bob", false), "bob \u{00b7} Reader");
}

#[test]
fn display_falls_back_to_the_username_for_a_blank_display_name() {
    assert_eq!(resolved_user(Some("Jane"), false).display(), "Jane");
    assert_eq!(resolved_user(Some("  "), false).display(), "reader");
    assert_eq!(resolved_user(None, false).display(), "reader");
}

#[test]
fn seeding_fills_the_field_once_and_never_clobbers_typing() {
    let mut s = ProfileCardState::new();
    s.seed(&None);
    assert_eq!(s.name_input, "");
    assert!(!s.seeded);
    s.seed(&Some(Some(resolved_user(Some("Jane Doe"), false))));
    assert_eq!(s.name_input, "Jane Doe");
    s.on_name_input("Jan".to_string());
    s.seed(&Some(Some(resolved_user(Some("Someone Else"), false))));
    assert_eq!(s.name_input, "Jan");
}

#[test]
fn save_sends_the_trimmed_name_or_clears_it_and_reports_the_outcome() {
    let mut s = ProfileCardState::new();
    s.on_name_input("  Jane  ".to_string());
    assert_eq!(s.begin_save(), Some("Jane".to_string()));
    assert!(s.in_flight);
    assert!(s.finish_save(Ok(())));
    assert_eq!(s.msg.as_deref(), Some("Profile saved."));
    assert!(!s.msg_is_error && !s.in_flight);
    s.on_name_input("   ".to_string());
    assert_eq!(s.msg, None);
    assert_eq!(s.begin_save(), None);
    assert!(!s.finish_save(Err("name taken".to_string())));
    assert_eq!(s.msg.as_deref(), Some("name taken"));
    assert!(s.msg_is_error);
    let user = resolved_user(Some("Jane"), false);
    let html = profile_card(&s, Some(&user), 0);
    assert!(html.contains("settings-status error"), "{html}");
    assert!(html.contains("name taken"), "{html}");
}

#[test]
fn avatar_writes_report_their_failures_in_the_status_slot() {
    let mut s = ProfileCardState::new();
    s.begin_avatar_write();
    assert!(s.uploading);
    let user = resolved_user(Some("Jane"), true);
    assert!(profile_card(&s, Some(&user), 0).contains("data-testid=\"avatar-remove\" disabled"));
    assert!(!s.finish_upload(Err("413 Payload Too Large".to_string())));
    assert_eq!(
        s.upload_error.as_deref(),
        Some("Upload failed: 413 Payload Too Large")
    );
    s.begin_avatar_write();
    assert!(!s.finish_remove(Err("connection refused".to_string())));
    let html = profile_card(&s, Some(&user), 1);
    assert!(html.contains("Remove failed: connection refused"), "{html}");
    assert!(html.contains("data-testid=\"avatar-status\""), "{html}");
    assert!(s.finish_upload(Ok(())));
    assert_eq!(s.upload_error, None);
}

#[test]
fn profile_profile_card_renders_the_unresolved_steady_state_before_current_user_resolves() {
    let html = card_unresolved(0);
    assert!(html.contains("data-testid=\"account-profile-card\""));
    assert!(html.contains("data-testid=\"display-name-input\""));
    assert!(html.contains("value=\"\""));
    assert!(!html.contains("data-testid=\"avatar-remove\""));
    assert!(!html.contains("data-testid=\"avatar-status\""));
    assert!(!html.contains("data-testid=\"profile-status\""));
}

#[test]
fn profile_profile_card_leaves_the_name_input_unseeded_on_first_paint_even_with_a_resolved_user() {
    let html = card_with_avatar(&resolved_user(Some("Jane Doe"), true), 3);
    assert!(html.contains("data-testid=\"display-name-input\""));
    assert!(html.contains("value=\"\""));
    assert!(html.contains("placeholder=\"Jane Doe\""));
}

#[test]
fn profile_profile_card_shows_remove_and_busts_the_avatar_url_when_the_user_has_one() {
    let html = card_with_avatar(&resolved_user(Some("Jane Doe"), true), 3);
    assert!(html.contains("data-testid=\"avatar-remove\""));
    assert!(html.contains("/api/users/42/avatar?v=3"));
}

#[test]
fn profile_profile_card_hides_remove_and_the_avatar_url_when_the_user_has_none() {
    let html = card_without_avatar(&resolved_user(None, false));
    assert!(!html.contains("data-testid=\"avatar-remove\""));
    assert!(!html.contains("/api/users/42/avatar"));
}

#[test]
fn profile_avatar_status_slot_renders_a_remove_failure_with_error_styling() {
    let html = credential_status_message(
        "avatar-status",
        Some("Remove failed: connection refused"),
        true,
    );
    assert!(html.contains("data-testid=\"avatar-status\""));
    assert!(html.contains("settings-status error"));
    assert!(html.contains("Remove failed: connection refused"));
}

#[test]
fn profile_avatar_status_slot_renders_an_upload_failure_with_error_styling() {
    let html = credential_status_message(
        "avatar-status",
        Some("Upload failed: 413 Payload Too Large"),
        true,
    );
    assert!(html.contains("settings-status error"));
    assert!(html.contains("Upload failed: 413 Payload Too Large"));
}

#[test]
fn profile_profile_status_slot_renders_the_save_confirmation_without_error_styling() {
    let html = credential_status_message("profile-status", Some("Profile saved."), false);
    assert!(html.contains("data-testid=\"profile-status\""));
    assert!(html.contains("settings-status success"));
    assert!(!html.contains("settings-status error"));
}

#[test]
fn the_account_identity_shows_the_display_name_over_the_login_and_role() {
    let u = resolved_user(Some("Jane Doe"), false);
    assert_eq!(
        account_identity(Some(&u)),
        ("Jane Doe".to_string(), "reader · Reader".to_string())
    );
    let blank = resolved_user(Some("  "), false);
    assert_eq!(account_identity(Some(&blank)).0, "reader");
    assert_eq!(account_identity(None), ("\u{2014}".to_string(), String::new()));
}
