use omnibus_pages::goals::{
    changed_updates, parse_draft, reading_goals_card, save_summary, target_summary,
    GoalsCardState, SaveStart, MAX_DAILY_MINUTES, MAX_DAILY_PAGES, MAX_GOAL_TARGET,
};

#[test]
fn parse_draft_reads_an_empty_field_as_a_deliberate_clear() {
    assert_eq!(parse_draft("", "book", MAX_GOAL_TARGET), Ok(None));
    assert_eq!(parse_draft("   ", "page", MAX_DAILY_PAGES), Ok(None));
}

#[test]
fn parse_draft_accepts_in_range_values_and_rejects_the_rest() {
    assert_eq!(parse_draft(" 24 ", "book", MAX_GOAL_TARGET), Ok(Some(24)));
    assert!(parse_draft("twelve", "book", MAX_GOAL_TARGET).is_err());
    assert!(parse_draft("0", "book", MAX_GOAL_TARGET).is_err());
    assert!(parse_draft(&(MAX_GOAL_TARGET + 1).to_string(), "book", MAX_GOAL_TARGET).is_err());
}

#[test]
fn parse_draft_bounds_each_kind_against_its_own_maximum() {
    assert_eq!(
        parse_draft("1500", "page", MAX_DAILY_PAGES),
        Ok(Some(1_500))
    );
    let err = parse_draft("1500", "minute", MAX_DAILY_MINUTES).unwrap_err();
    assert!(err.contains(&MAX_DAILY_MINUTES.to_string()), "{err}");
}

#[test]
fn parse_draft_names_the_unit_it_is_asking_for() {
    assert_eq!(
        parse_draft("x", "minute", MAX_DAILY_MINUTES),
        Err("Enter a whole number of minutes.".to_string())
    );
}

#[test]
fn target_summary_states_the_unit_or_that_none_is_set() {
    assert_eq!(target_summary(Some(30), "book"), "30 books");
    assert_eq!(target_summary(Some(1), "book"), "1 book");
    assert_eq!(target_summary(Some(45), "minute"), "45 minutes");
    assert_eq!(target_summary(None, "page"), "Not set");
}

#[test]
fn changed_updates_writes_only_the_kinds_that_actually_moved() {
    let current = [Some(30), Some(30), Some(45)];
    let drafts = [Some(30), Some(50), Some(45)];
    assert_eq!(changed_updates(&drafts, &current), vec![(1, Some(50))]);
}

#[test]
fn changed_updates_is_empty_when_nothing_moved() {
    let current = [Some(30), None, Some(45)];
    assert_eq!(changed_updates(&current, &current), Vec::new());
}

#[test]
fn changed_updates_carries_a_clear_as_a_change() {
    let current = [Some(30), Some(30), Some(45)];
    let drafts = [Some(30), None, Some(45)];
    assert_eq!(changed_updates(&drafts, &current), vec![(1, None)]);
}

#[test]
fn changed_updates_reports_every_moved_kind_in_field_order() {
    let current = [None, None, None];
    let drafts = [Some(30), Some(30), Some(45)];
    assert_eq!(
        changed_updates(&drafts, &current),
        vec![(0, Some(30)), (1, Some(30)), (2, Some(45))]
    );
}

#[test]
fn save_summary_names_the_kinds_that_failed_rather_than_shrugging() {
    assert_eq!(save_summary(&[]), ("Goals saved.".to_string(), false));
    let (one, is_error) = save_summary(&["Pages a day"]);
    assert_eq!(one, "Saved, except Pages a day \u{2014} try that one again.");
    assert!(is_error);
    let (two, _) = save_summary(&["Pages a day", "Minutes a day"]);
    assert_eq!(
        two,
        "Saved, except Pages a day and Minutes a day \u{2014} try those again."
    );
}

#[test]
fn goals_card_opens_in_read_mode_behind_a_single_edit_control() {
    let html = reading_goals_card(&GoalsCardState::new());
    assert!(html.contains("account-goals-card"), "{html}");
    assert_eq!(html.matches("goals-edit").count(), 1, "{html}");
    for testid in ["goal-books-value", "goal-pages-value", "goal-minutes-value"] {
        assert!(html.contains(testid), "missing {testid}: {html}");
    }
    assert!(!html.contains("goals-save"), "{html}");
}

#[test]
fn goals_card_hydrates_once_and_reads_out_the_targets() {
    let mut s = GoalsCardState::new();
    s.hydrate([Some(30), None, Some(45)]);
    s.hydrate([Some(1), Some(1), Some(1)]);
    assert_eq!(s.targets, vec![Some(30), None, Some(45)]);
    assert_eq!(s.drafts, vec!["30".to_string(), String::new(), "45".to_string()]);
    let html = reading_goals_card(&s);
    assert!(html.contains("30 books"), "{html}");
    assert!(html.contains("goal-readout-value unset"), "{html}");
    assert!(html.contains("45 minutes"), "{html}");
}

#[test]
fn save_names_the_first_invalid_field_and_keeps_the_editor_open() {
    let mut s = GoalsCardState::new();
    s.begin_edit();
    s.on_draft_input(1, "lots".to_string());
    s.on_draft_input(2, "5000".to_string());
    assert!(matches!(s.begin_save(), SaveStart::Invalid));
    assert_eq!(
        s.msg.as_deref(),
        Some("Pages a day: Enter a whole number of pages.")
    );
    assert!(s.msg_is_error && s.editing);
    let html = reading_goals_card(&s);
    assert!(html.contains("goals-save"), "{html}");
    assert!(html.contains("value=\"lots\""), "{html}");
}

#[test]
fn save_with_nothing_moved_closes_the_editor_without_writing() {
    let mut s = GoalsCardState::new();
    s.hydrate([Some(30), None, None]);
    s.begin_edit();
    s.on_draft_input(0, " 30 ".to_string());
    assert!(matches!(s.begin_save(), SaveStart::NothingChanged));
    assert!(!s.editing && s.msg.is_none());
}

#[test]
fn partial_failure_keeps_the_failed_draft_and_lands_the_rest() {
    let mut s = GoalsCardState::new();
    s.hydrate([Some(30), Some(30), Some(45)]);
    s.begin_edit();
    s.on_draft_input(0, "40".to_string());
    s.on_draft_input(1, "".to_string());
    s.on_draft_input(2, "60".to_string());
    let pending = match s.begin_save() {
        SaveStart::Write(p) => p,
        _ => panic!("expected writes"),
    };
    assert_eq!(pending, vec![(0, Some(40)), (1, None), (2, Some(60))]);
    assert!(s.saving);
    s.finish_save(&pending, &vec![true, false, true]);
    assert_eq!(s.targets, vec![Some(40), Some(30), Some(60)]);
    assert_eq!(s.drafts, vec!["40".to_string(), String::new(), "60".to_string()]);
    assert_eq!(
        s.msg.as_deref(),
        Some("Saved, except Pages a day \u{2014} try that one again.")
    );
    assert!(s.msg_is_error && s.editing && !s.saving);
    s.cancel_edit();
    assert_eq!(s.drafts[1], "30");
    assert!(!s.editing);
}
