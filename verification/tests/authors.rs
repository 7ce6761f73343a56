use omnibus_pages::authors::{
    card_initial, card_name_parts,
    compute_author_groups, filter_authors, first_letter, group_by_letter, is_non_alpha_key,
    letter_frag, letter_nav, sort_authors, sort_key, AuthorSummary, IndexSort,
};

fn author(name: &str, sort: Option<&str>) -> AuthorSummary {
    AuthorSummary {
        id: 0,
        name: name.into(),
        sort: sort.map(Into::into),
        book_count: 0,
        accent: None,
        has_photo: false,
    }
}

#[test]
fn sort_key_uses_comma_form_sort_verbatim() {
    let a = author("Louisa May Alcott", Some("Alcott, Louisa May"));
    assert_eq!(sort_key(&a), "Alcott, Louisa May");
    assert_eq!(first_letter(&a), 'A');
}

#[test]
fn sort_key_ignores_commaless_sort_and_falls_back_to_name() {
    let a = author("Erin A. Craig", Some("Underwood"));
    assert_eq!(sort_key(&a), "Craig, Erin A.");
    assert_eq!(first_letter(&a), 'C');
}

#[test]
fn sort_key_falls_back_to_name_when_sort_missing() {
    let a = author("Ada Lovelace", None);
    assert_eq!(sort_key(&a), "Lovelace, Ada");
    assert_eq!(first_letter(&a), 'L');
}

#[test]
fn sort_key_treats_lastname_first_display_name_verbatim() {
    let a = author("Atwater, Olivia", None);
    assert_eq!(sort_key(&a), "Atwater, Olivia");
    assert_eq!(first_letter(&a), 'A');
}

#[test]
fn sort_key_handles_mononym() {
    let a = author("Plato", None);
    assert_eq!(sort_key(&a), "Plato");
    assert_eq!(first_letter(&a), 'P');
}

#[test]
fn sort_key_handles_empty_sort_string() {
    let a = author("Ada Lovelace", Some(""));
    assert_eq!(sort_key(&a), "Lovelace, Ada");
    assert_eq!(first_letter(&a), 'L');
}

#[test]
fn first_letter_buckets_non_alpha_under_hash() {
    assert_eq!(first_letter(&author("1984", None)), '#');
    assert_eq!(first_letter(&author("[Anonymous]", None)), '#');
    assert_eq!(first_letter(&author("\u{4E2D}\u{6587}", None)), '#');
}

#[test]
fn first_letter_upper_cases_a_lower_case_start_and_files_a_blank_name_under_hash() {
    assert_eq!(first_letter(&author("bell hooks", None)), 'H');
    assert_eq!(first_letter(&author("", None)), '#');
}

#[test]
fn is_non_alpha_key_classifies_keys() {
    assert!(!is_non_alpha_key("Alcott, Louisa May"));
    assert!(!is_non_alpha_key("zZz"));
    assert!(is_non_alpha_key("1984"));
    assert!(is_non_alpha_key("[Anonymous]"));
    assert!(is_non_alpha_key("\u{4E2D}\u{6587}"));
    assert!(is_non_alpha_key(""));
}

#[test]
fn letter_frag_spells_the_hash_bucket_out() {
    assert_eq!(letter_frag('#'), "hash");
    assert_eq!(letter_frag('Q'), "Q");
}

#[test]
fn filter_authors_returns_all_when_query_is_empty() {
    let all = [author("Ada Lovelace", None), author("Louisa May Alcott", None)];
    let out = filter_authors(&all, "");
    assert_eq!(out.len(), 2);
}

#[test]
fn filter_authors_matches_lowercase_query_against_mixed_case_name() {
    let all = [author("Ada Lovelace", None), author("Louisa May Alcott", None)];
    let out = filter_authors(&all, "lovelace");
    assert_eq!(out.len(), 1);
    assert_eq!(out[0].name, "Ada Lovelace");
}

#[test]
fn sort_authors_by_name_orders_alpha_before_non_alpha_bucket() {
    let all = [author("1984", None), author("Ada Lovelace", None)];
    let mut filtered: Vec<&AuthorSummary> = all.iter().collect();
    sort_authors(&mut filtered, IndexSort::Name);
    assert_eq!(filtered[0].name, "Ada Lovelace");
    assert_eq!(filtered[1].name, "1984");
}

#[test]
fn sort_authors_by_book_count_orders_descending_then_name() {
    let mut low = author("Alpha", None);
    low.book_count = 3;
    let mut high = author("Bravo", None);
    high.book_count = 7;
    let all = [low, high];
    let mut filtered: Vec<&AuthorSummary> = all.iter().collect();
    sort_authors(&mut filtered, IndexSort::BookCount);
    assert_eq!(filtered[0].name, "Bravo");
    assert_eq!(filtered[1].name, "Alpha");
}

#[test]
fn sort_authors_keeps_equal_keys_in_input_order() {
    let mut a = author("Ann Smith", None);
    a.id = 1;
    let mut b = author("Bob Jones", None);
    b.id = 2;
    let mut c = author("ann smith", None);
    c.id = 3;
    let all = [a, b, c];
    let mut filtered: Vec<&AuthorSummary> = all.iter().collect();
    sort_authors(&mut filtered, IndexSort::Name);
    let ids: Vec<i64> = filtered.iter().map(|a| a.id).collect();
    assert_eq!(ids, vec![2, 1, 3]);
}

#[test]
fn group_by_letter_buckets_by_first_letter_when_shown() {
    let all = [author("Ada Lovelace", None), author("Bob Lowe", None)];
    let groups = group_by_letter(&all, true);
    assert_eq!(groups.len(), 1);
    assert_eq!(groups[0].0, 'L');
    assert_eq!(groups[0].1.len(), 2);
}

#[test]
fn group_by_letter_returns_empty_when_show_letters_is_false() {
    let all = [author("Ada Lovelace", None)];
    let groups = group_by_letter(&all, false);
    assert!(groups.is_empty());
}

#[test]
fn compute_author_groups_filters_sorts_and_files_into_sections() {
    let all = [
        author("Bob Lowe", None),
        author("1984", None),
        author("Ada Lovelace", None),
        author("Carl Sagan", None),
    ];
    let (filtered, letters) = compute_author_groups(&all, "", IndexSort::Name);
    let names: Vec<&str> = filtered.iter().map(|a| a.name.as_str()).collect();
    assert_eq!(names, ["Ada Lovelace", "Bob Lowe", "Carl Sagan", "1984"]);
    let glyphs: Vec<char> = letters.iter().map(|(l, _)| *l).collect();
    assert_eq!(glyphs, ['L', 'S', '#']);
    let (filtered, letters) = compute_author_groups(&all, "LO", IndexSort::BookCount);
    assert_eq!(filtered.len(), 2);
    assert!(letters.is_empty());
}

#[test]
fn the_letter_strip_links_only_the_letters_with_a_section() {
    let list = vec![author("Ann Beck", None), author("Cy Brown", None), author("9lives", None)];
    let groups = group_by_letter(&list, true);
    let html = letter_nav(&groups, list.len());
    assert!(html.contains("<a class=\"idx-letter idx-letter-on\" href=\"#letter-B\" data-testid=\"authors-letter-B\">B</a>"), "{html}");
    assert!(html.contains("href=\"#letter-hash\""), "{html}");
    assert!(html.contains("<span class=\"idx-letter\">A</span>"), "{html}");
    assert!(html.contains("<span class=\"idx-letter\">Z</span>"), "{html}");
    assert!(html.contains("2 letters · 3 authors"), "{html}");
    assert_eq!(html.matches("idx-letter\"").count() + html.matches("idx-letter idx-letter-on").count(), 27);
}

#[test]
fn card_name_parts_split_at_the_last_space() {
    assert_eq!(
        card_name_parts("Ursula K. Le Guin"),
        ("Ursula K. Le".to_string(), "Guin".to_string())
    );
    assert_eq!(card_name_parts("Plato"), (String::new(), "Plato".to_string()));
    assert_eq!(card_name_parts(""), (String::new(), String::new()));
}

#[test]
fn card_initial_upper_cases_the_first_character() {
    assert_eq!(card_initial("ursula"), 'U');
    assert_eq!(card_initial(""), '?');
    // An upper case that spans several characters keeps only its first.
    assert_eq!(card_initial("\u{df}lar"), 'S');
}
