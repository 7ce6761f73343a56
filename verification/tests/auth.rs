use omnibus_pages::auth::{
    data_error_message, DataError,
    classify_errors, classify_register_error, score_password, LoginForm, RegisterError,
    RegisterForm, StrengthScore, SubmitStep,
};

#[test]
fn score_password_empty_is_zero() {
    let (score, label, rules) = score_password("");
    assert_eq!(score.value(), 0);
    assert_eq!(label, "empty");
    assert_eq!(rules, [false, false, false]);
}

#[test]
fn score_password_grows_with_length_and_classes() {
    let (s, _, _) = score_password("abcd");
    assert_eq!(s.value(), 1);
    let (s, _, _) = score_password("AbCdEfGh");
    assert_eq!(s.value(), 3);
    let (s, label, rules) = score_password("AbCdEfGh1!2x");
    assert_eq!(s.value(), 4);
    assert_eq!(label, "strong");
    assert_eq!(rules, [true, true, true]);
}

#[test]
fn score_password_rules_track_thresholds() {
    let (_, _, rules) = score_password("Ab1");
    assert_eq!(rules, [false, true, true]);
    let (_, _, rules) = score_password("abcdefghijk1");
    assert_eq!(rules, [true, false, true]);
}

#[test]
fn score_password_length_rule_boundary() {
    let (_, _, rules) = score_password("abcdefgh1");
    assert!(!rules[0], "9-char input must not satisfy len_ok");
    let (_, _, rules) = score_password("abcdefghi1");
    assert!(rules[0], "10-char input must satisfy len_ok");
    let (_, _, rules) = score_password("abcdefghij1");
    assert!(rules[0], "11-char input must satisfy len_ok");
}

#[test]
fn score_password_label_distinguishes_empty_from_short() {
    let (_, label, _) = score_password("");
    assert_eq!(label, "empty");
    let (_, label, _) = score_password("a");
    assert_eq!(label, "weak");
    let (_, label, _) = score_password("ab");
    assert_eq!(label, "weak");
}

#[test]
fn score_password_counts_characters_not_bytes_and_non_ascii_symbols() {
    // Four characters, eight bytes.
    let (s, label, rules) = score_password("éééé");
    assert_eq!(s.value(), 1);
    assert_eq!(label, "weak");
    assert_eq!(rules, [false, false, false]);
    // An emoji is neither letter nor number, so it counts as a symbol.
    let (_, _, rules) = score_password("ab\u{1f600}");
    assert!(rules[2]);
    assert_eq!(StrengthScore::MAX, 4);
}

#[test]
fn auth_classify_register_error_routes_username() {
    match classify_register_error("username already exists") {
        RegisterError::Username(m) => assert_eq!(m, "username already exists"),
        other => unreachable!("expected Username variant, got {other:?}"),
    }
}

#[test]
fn auth_classify_register_error_routes_password() {
    match classify_register_error("password is too short") {
        RegisterError::Password(m) => assert_eq!(m, "password is too short"),
        other => unreachable!("expected Password variant, got {other:?}"),
    }
}

#[test]
fn auth_classify_register_error_falls_back_to_other() {
    match classify_register_error("500: internal server error") {
        RegisterError::Other(m) => assert_eq!(m, "500: internal server error"),
        other => unreachable!("expected Other variant, got {other:?}"),
    }
}

#[test]
fn classify_register_error_ignores_case_and_keeps_the_message() {
    assert_eq!(
        classify_register_error("409: User Already registered"),
        RegisterError::Username("409: User Already registered".to_string())
    );
    assert_eq!(
        classify_register_error("PASSWORD too weak"),
        RegisterError::Password("PASSWORD too weak".to_string())
    );
}

#[test]
fn classify_errors_fills_exactly_one_slot() {
    assert_eq!(
        classify_errors(&Some(RegisterError::Password("p".to_string()))),
        (None, Some("p".to_string()), None)
    );
    assert_eq!(classify_errors(&None), (None, None, None));
}

#[test]
fn login_form_asks_for_both_fields_then_sends_once() {
    let mut f = LoginForm::new();
    assert!(matches!(f.submit(), SubmitStep::Rejected));
    assert_eq!(f.error.as_deref(), Some("enter a username and password"));
    f.username = "ann".to_string();
    f.password = "secret".to_string();
    match f.submit() {
        SubmitStep::Send(u, p) => assert_eq!((u.as_str(), p.as_str()), ("ann", "secret")),
        _ => panic!("expected a send"),
    }
    assert!(f.error.is_none() && f.submitting);
    assert!(matches!(f.submit(), SubmitStep::Ignored));
    assert!(!f.finish(Err("invalid credentials".to_string())));
    assert_eq!(f.error.as_deref(), Some("invalid credentials"));
    assert!(!f.submitting);
    assert!(matches!(f.submit(), SubmitStep::Send(_, _)));
    assert!(f.finish(Ok(())));
}

#[test]
fn register_form_routes_the_failure_and_stays_shut_until_an_edit() {
    let mut f = RegisterForm::new();
    assert_eq!(f.submit_label(), "Create account");
    f.on_username_input("ann".to_string());
    f.on_password_input("secret-password".to_string());
    assert!(matches!(f.submit(), SubmitStep::Send(_, _)));
    assert_eq!(f.submit_label(), "Creating\u{2026}");
    assert!(!f.finish(Err("409: username already exists".to_string())));
    assert_eq!(
        f.error,
        Some(RegisterError::Username("409: username already exists".to_string()))
    );
    assert_eq!(f.submit_label(), "Fix to continue");
    assert!(!f.can_submit());
    assert!(matches!(f.submit(), SubmitStep::Ignored));
    f.on_username_input("ann2".to_string());
    assert!(f.can_submit());
    assert!(matches!(f.submit(), SubmitStep::Send(_, _)));
    assert!(f.finish(Ok(())));
}

#[test]
fn auth_data_error_message_preserves_http_body_for_classification() {
    let msg = data_error_message(DataError::Http {
        status: 409,
        body: "username already exists".into(),
    });
    assert_eq!(msg, "409: username already exists");
    assert!(matches!(classify_register_error(&msg), RegisterError::Username(_)));
}

#[test]
fn auth_data_error_message_falls_back_to_display_without_body() {
    assert_eq!(data_error_message(DataError::Unauthorized), "unauthorized");
    assert_eq!(
        data_error_message(DataError::Http { status: 500, body: String::new() }),
        "server returned 500"
    );
}

#[test]
fn tests_classify_register_error_routes_username() {
    match classify_register_error("username already exists") {
        RegisterError::Username(m) => assert_eq!(m, "username already exists"),
        other => unreachable!("expected Username variant, got {other:?}"),
    }
}

#[test]
fn tests_classify_register_error_routes_password() {
    match classify_register_error("password is too short") {
        RegisterError::Password(m) => assert_eq!(m, "password is too short"),
        other => unreachable!("expected Password variant, got {other:?}"),
    }
}

#[test]
fn tests_classify_register_error_falls_back_to_other() {
    match classify_register_error("500: internal server error") {
        RegisterError::Other(m) => assert_eq!(m, "500: internal server error"),
        other => unreachable!("expected Other variant, got {other:?}"),
    }
}

#[test]
fn tests_data_error_message_preserves_http_body_for_classification() {
    let msg = data_error_message(DataError::Http {
        status: 409,
        body: "username already exists".into(),
    });
    assert_eq!(msg, "409: username already exists");
    assert!(matches!(classify_register_error(&msg), RegisterError::Username(_)));
}

#[test]
fn tests_data_error_message_falls_back_to_display_without_body() {
    assert_eq!(data_error_message(DataError::Unauthorized), "unauthorized");
    assert_eq!(
        data_error_message(DataError::Http { status: 500, body: String::new() }),
        "server returned 500"
    );
}
