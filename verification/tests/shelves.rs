use omnibus_pages::shelves::{
    series_item_caption, series_shelf_header, shelf_chips, shelves_holding, up_next,
    ShelfSummary,
};

fn uuids(v: &[Option<&str>]) -> Vec<Option<String>> {
    v.iter().map(|o| o.map(str::to_string)).collect()
}

fn shelf(id: i64, name: &str, accent: Option<&str>) -> ShelfSummary {
    ShelfSummary {
        id,
        name: name.to_string(),
        accent: accent.map(str::to_string),
    }
}

#[test]
fn series_header_names_the_library_count_only_when_known() {
    assert_eq!(
        series_shelf_header("Prince of Sin", 3),
        "Prince of Sin \u{b7} 3 in your library"
    );
    assert_eq!(series_shelf_header("Prince of Sin", 0), "Prince of Sin");
}

#[test]
fn up_next_is_the_entry_after_the_current_book() {
    let shelf = uuids(&[Some("a"), Some("b"), Some("c")]);
    assert_eq!(up_next(&shelf, "a"), Some("b".to_string()));
    assert_eq!(up_next(&shelf, "b"), Some("c".to_string()));
    assert_eq!(up_next(&shelf, "c"), None);
    assert_eq!(up_next(&shelf, "z"), None);
    // A following entry without a uuid marks nothing.
    assert_eq!(up_next(&uuids(&[Some("a"), None]), "a"), None);
}

#[test]
fn series_item_caption_combines_position_and_current() {
    assert_eq!(series_item_caption(Some("2"), true), "Book 2 \u{b7} this book");
    assert_eq!(series_item_caption(Some("2"), false), "Book 2");
    assert_eq!(series_item_caption(None, true), "this book");
    assert_eq!(series_item_caption(None, false), "");
}

#[test]
fn shelves_holding_keeps_the_listed_shelves_in_library_order() {
    let all = vec![
        shelf(1, "Favourites", None),
        shelf(2, "To read", None),
        shelf(3, "Gothic", Some("#a33")),
    ];
    let held = shelves_holding(all, &vec![3, 1]);
    let names: Vec<&str> = held.iter().map(|s| s.name.as_str()).collect();
    assert_eq!(names, vec!["Favourites", "Gothic"]);
    assert!(shelves_holding(vec![shelf(1, "A", None)], &vec![]).is_empty());
}

#[test]
fn shelf_chips_mark_the_first_and_colour_accented_shelves() {
    let held = vec![shelf(1, "Favourites", None), shelf(3, "Gothic & Grim", Some("#a33"))];
    assert_eq!(
        shelf_chips(&held),
        "<div class=\"bdmq-chips bdmq-shelfchips\" data-testid=\"bdmq-shelves\"><span class=\"chip bdmq-shelfchip first\">Favourites</span><span class=\"chip bdmq-shelfchip\" style=\"--accent:#a33;\">Gothic &amp; Grim</span></div>"
    );
}
