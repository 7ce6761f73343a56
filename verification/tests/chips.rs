use omnibus_pages::chips::{chip_list, should_resync, BdChipKind, MergedLists};

fn strings(v: &[&str]) -> Vec<String> {
    v.iter().map(|s| s.to_string()).collect()
}

#[test]
fn chip_list_editor_renders_tag_chip_per_subject() {
    let html = chip_list(BdChipKind::Tags, &strings(&["fiction", "space opera"]), false);
    assert!(html.contains("data-testid=\"bd-tag-list\""), "{html}");
    assert!(html.contains("fiction"), "{html}");
    assert!(html.contains("space opera"), "{html}");
}

#[test]
fn chip_list_editor_renders_genre_chips_with_genre_class() {
    let html = chip_list(BdChipKind::Genres, &strings(&["Horror"]), false);
    assert!(html.contains("data-testid=\"bd-genre-list\""), "{html}");
    assert!(html.contains("chip chip-genre"), "{html}");
    assert!(html.contains("Horror"), "{html}");
}

#[test]
fn chip_list_editor_hides_add_pill_and_list_on_ssr_when_empty() {
    let html = chip_list(BdChipKind::Tags, &Vec::new(), false);
    assert!(!html.contains("data-testid=\"bd-tag-list\""), "{html}");
    assert!(!html.contains("data-testid=\"bd-add-tags\""), "{html}");
}

#[test]
fn an_admin_sees_the_add_pill_even_on_an_empty_list() {
    let html = chip_list(BdChipKind::Genres, &Vec::new(), true);
    assert!(html.contains("data-testid=\"bd-genre-list\""), "{html}");
    assert!(html.contains("data-testid=\"bd-add-genres\""), "{html}");
    assert!(html.contains("+ genres"), "{html}");
}

#[test]
fn chip_kinds_carry_their_own_labels() {
    assert_eq!(BdChipKind::Tags.add_label(), "+ tags");
    assert_eq!(BdChipKind::Genres.editor_testid(), "bd-genres-editor");
    assert_eq!(BdChipKind::Tags.list_class(), "bd-tag-list");
}

#[test]
fn chips_follow_a_refetch_only_outside_editing_and_when_they_differ() {
    let a = strings(&["x", "y"]);
    let b = strings(&["x", "z"]);
    assert!(should_resync(false, &a, &b));
    assert!(!should_resync(true, &a, &b));
    assert!(!should_resync(false, &a, &a.clone()));
    assert!(should_resync(false, &a, &strings(&["x"])));
}

#[test]
fn editor_options_speak_of_the_kind() {
    let g = BdChipKind::Genres.editor_options();
    assert_eq!(g.placeholder, "+ add genre\u{2026}");
    assert_eq!(g.aria_remove_prefix, "Remove genre");
    assert_eq!(g.testid_prefix, "bd-genres");
    assert_eq!(g.dropdown_header, "ADD GENRE");
    assert!(g.autofocus);
    let t = BdChipKind::Tags.editor_options();
    assert_eq!(t.placeholder, "+ add tag\u{2026}");
    assert_eq!(t.aria_remove_prefix, "Remove tag");
    assert_eq!(t.testid_prefix, "bd-tags");
    assert_eq!(t.dropdown_header, "ADD TAG");
    assert!(t.autofocus);
}

#[test]
fn overrides_set_only_the_kinds_list() {
    let v = vec!["Horror".to_string()];
    let o = BdChipKind::Genres.overrides(v.clone());
    assert_eq!(o.genres, Some(v.clone()));
    assert!(o.subjects.is_none());
    let o = BdChipKind::Tags.overrides(v.clone());
    assert_eq!(o.subjects, Some(v));
    assert!(o.genres.is_none());
}

#[test]
fn merged_values_pick_the_kinds_list() {
    let m = || MergedLists {
        genres: vec!["Horror".to_string()],
        subjects: vec!["gothic".to_string(), "vampires".to_string()],
    };
    assert_eq!(BdChipKind::Genres.merged_values(m()), vec!["Horror".to_string()]);
    assert_eq!(
        BdChipKind::Tags.merged_values(m()),
        vec!["gothic".to_string(), "vampires".to_string()]
    );
}
