use omnibus_pages::identifiers::{
    bd_identifier_key, bd_identifier_label, bd_identifier_label_ranked, bd_identifier_rows, bd_known_scheme_label,
    bd_looks_like_isbn, Identifier, LabelRank,
};

fn ident(scheme: Option<&str>, value: &str) -> Identifier {
    Identifier {
        scheme: scheme.map(str::to_string),
        value: value.to_string(),
    }
}

fn label(ident: &Identifier) -> String {
    bd_identifier_label_ranked(ident).0
}

#[test]
fn tests_bd_identifier_key_distinguishes_same_scheme_different_values() {
    assert_ne!(
        bd_identifier_key(&ident(Some("unknown"), "978-1-938570-40-7")),
        bd_identifier_key(&ident(
            Some("unknown"),
            "urn:uuid:c0e51a66-085f-4805-b116-a0d451d281bd"
        ))
    );
    assert_ne!(
        bd_identifier_key(&ident(Some("ISBN"), "111")),
        bd_identifier_key(&ident(Some("ISBN"), "222"))
    );
}

#[test]
fn tests_bd_identifier_key_distinguishes_schemeless_values_from_each_other_and_from_a_scheme() {
    assert_ne!(
        bd_identifier_key(&ident(None, "a")),
        bd_identifier_key(&ident(None, "b"))
    );
    assert_ne!(
        bd_identifier_key(&ident(None, "111")),
        bd_identifier_key(&ident(Some("ISBN"), "111"))
    );
}

#[test]
fn tests_bd_identifier_key_survives_delimiter_shuffle_between_fields() {
    let a = bd_identifier_key(&ident(Some("a\u{1f}b"), "c"));
    let b = bd_identifier_key(&ident(Some("a"), "b\u{1f}c"));
    assert_ne!(a, b);
}

#[test]
fn bd_identifier_key_quotes_both_fields() {
    assert_eq!(
        bd_identifier_key(&ident(Some("ISBN"), "111")),
        "Some(\"ISBN\")\u{1f}\"111\""
    );
    assert_eq!(bd_identifier_key(&ident(None, "a")), "None\u{1f}\"a\"");
}

#[test]
fn tests_bd_identifier_label_prefers_a_real_scheme() {
    assert_eq!(label(&ident(Some("ASIN"), "B000")), "ASIN");
    assert_eq!(bd_identifier_label(&ident(Some("ASIN"), "B000")), "ASIN");
}

#[test]
fn tests_bd_identifier_label_infers_isbn_from_shape_when_scheme_unknown() {
    assert_eq!(label(&ident(Some("unknown"), "978-0-7564-0407-9")), "ISBN");
    assert_eq!(label(&ident(None, "012345678X")), "ISBN");
    assert_eq!(label(&ident(None, "not-an-isbn")), "Identifier");
    assert_eq!(
        bd_identifier_label(&ident(Some("unknown"), "978-0-7564-0407-9")),
        "ISBN"
    );
    assert_eq!(bd_identifier_label(&ident(None, "012345678X")), "ISBN");
    assert_eq!(bd_identifier_label(&ident(None, "not-an-isbn")), "Identifier");
}

#[test]
fn plain_identifier_label_keeps_any_named_scheme_as_written() {
    assert_eq!(bd_identifier_label(&ident(Some("15"), "9780000000000")), "15");
    assert_eq!(bd_identifier_label(&ident(Some("UNKNOWN"), "x")), "Identifier");
}

#[test]
fn bd_identifier_label_names_an_onix_codelist_value() {
    assert_eq!(label(&ident(Some("15"), "9780316769488")), "ISBN-13");
    assert_eq!(label(&ident(Some("02"), "0316769487")), "ISBN-10");
    assert_eq!(label(&ident(Some("06"), "10.1000/182")), "DOI");
}

#[test]
fn bd_identifier_label_never_shows_a_bare_numeric_scheme() {
    assert_eq!(label(&ident(Some("99"), "9780316769488")), "ISBN");
    assert_eq!(label(&ident(Some("99"), "xyz")), "Identifier");
}

#[test]
fn bd_identifier_label_names_the_source_uuid_for_what_it_holds() {
    assert_eq!(
        label(&ident(Some("uuid"), "c0e51a66-085f-4805-b116-a0d451d281bd")),
        "Source UUID"
    );
    assert_eq!(label(&ident(Some("calibre"), "412")), "Calibre ID");
}

#[test]
fn bd_identifier_label_passes_an_unrecognized_named_scheme_through() {
    assert_eq!(label(&ident(Some("BNB"), "GB1234")), "BNB");
}

#[test]
fn bd_identifier_label_ranks_known_over_passed_through_over_inferred() {
    assert_eq!(
        bd_identifier_label_ranked(&ident(Some("isbn"), "1")).1,
        LabelRank::Known
    );
    assert_eq!(
        bd_identifier_label_ranked(&ident(Some("BNB"), "1")).1,
        LabelRank::RawScheme
    );
    assert_eq!(
        bd_identifier_label_ranked(&ident(None, "1")).1,
        LabelRank::Inferred
    );
}

#[test]
fn bd_known_scheme_label_folds_case_and_knows_the_codelist() {
    assert_eq!(bd_known_scheme_label("isbn"), Some("ISBN"));
    assert_eq!(bd_known_scheme_label("AMAZON"), Some("ASIN"));
    assert_eq!(bd_known_scheme_label("15"), Some("ISBN-13"));
    assert_eq!(bd_known_scheme_label("BNB"), None);
}

#[test]
fn bd_looks_like_isbn_counts_digits_and_a_trailing_x() {
    assert!(bd_looks_like_isbn("978-0-7564-0407-9"));
    assert!(bd_looks_like_isbn("012345678X"));
    assert!(bd_looks_like_isbn("012345678x"));
    assert!(!bd_looks_like_isbn("01234567X8"));
    assert!(!bd_looks_like_isbn("12345"));
}

#[test]
fn bd_identifier_rows_collapse_one_value_listed_under_several_schemes() {
    let rows = bd_identifier_rows(&[
        ident(Some("15"), "9780316769488"),
        ident(Some("ISBN"), "9780316769488"),
    ]);
    assert_eq!(rows.len(), 1);
    assert_eq!(rows[0].label, "ISBN-13");
    assert_eq!(rows[0].value, "9780316769488");
}

#[test]
fn bd_identifier_rows_prefer_a_known_label_over_an_inferred_one() {
    let rows = bd_identifier_rows(&[
        ident(Some("unknown"), "9780316769488"),
        ident(Some("15"), "9780316769488"),
    ]);
    assert_eq!(rows.len(), 1);
    assert_eq!(rows[0].label, "ISBN-13");
}

#[test]
fn bd_identifier_rows_keep_the_first_occurrence_on_a_tie() {
    let rows = bd_identifier_rows(&[
        ident(Some("ISBN"), "9780316769488"),
        ident(Some("isbn"), "9780316769488"),
    ]);
    assert_eq!(rows.len(), 1);
    assert_eq!(rows[0].label, "ISBN");
}

#[test]
fn bd_identifier_rows_keep_distinct_values_in_source_order() {
    let rows = bd_identifier_rows(&[
        ident(Some("15"), "9780316769488"),
        ident(Some("calibre"), "412"),
        ident(Some("uuid"), "c0e51a66-085f-4805-b116-a0d451d281bd"),
    ]);
    assert_eq!(rows.len(), 3);
    assert_eq!(
        rows.iter().map(|r| r.label.as_str()).collect::<Vec<_>>(),
        ["ISBN-13", "Calibre ID", "Source UUID"]
    );
}

#[test]
fn bd_identifier_rows_drop_a_blank_value() {
    let rows = bd_identifier_rows(&[ident(Some("ISBN"), "   "), ident(None, "")]);
    assert!(rows.is_empty());
}

#[test]
fn bd_identifier_rows_give_every_row_a_distinct_key() {
    let rows = bd_identifier_rows(&[
        ident(Some("ISBN"), "111"),
        ident(Some("ISBN"), "222"),
        ident(None, "333"),
    ]);
    let mut keys: Vec<&str> = rows.iter().map(|r| r.key.as_str()).collect();
    keys.sort_unstable();
    let before = keys.len();
    keys.dedup();
    assert_eq!(keys.len(), before);
}
