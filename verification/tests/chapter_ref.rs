use omnibus_pages::chapter_ref::{cfi_spine_ordinal, chapter_index_for_cfi};

#[test]
fn cfi_spine_ordinal_halves_the_even_package_step() {
    assert_eq!(cfi_spine_ordinal("epubcfi(/6/14[chap3]!/4/2/1:0)"), Some(7));
    assert_eq!(cfi_spine_ordinal("epubcfi(/6/2!/4)"), Some(1));
}

#[test]
fn cfi_spine_ordinal_rejects_non_element_and_malformed_steps() {
    assert_eq!(cfi_spine_ordinal("epubcfi(/6/13!/4)"), None); // odd step
    assert_eq!(cfi_spine_ordinal("epubcfi(/6/0!/4)"), None); // zero
    assert_eq!(cfi_spine_ordinal("not-a-cfi"), None);
}

#[test]
fn chapter_index_for_cfi_picks_the_chapter_by_spine_not_percent() {
    let spines = [2, 4, 6];
    assert_eq!(
        chapter_index_for_cfi(&spines, "epubcfi(/6/10!/4/2:0)"),
        Some(1)
    );
    assert_eq!(chapter_index_for_cfi(&spines, "epubcfi(/6/20!/4)"), Some(2));
    assert_eq!(chapter_index_for_cfi(&spines, "epubcfi(/6/2!/4)"), None);
}

#[test]
fn chapter_index_for_cfi_resolves_to_last_of_chapters_sharing_a_spine() {
    let spines = [0, 3, 3, 5];
    assert_eq!(chapter_index_for_cfi(&spines, "epubcfi(/6/8!/4)"), Some(2));
}

#[test]
fn cfi_spine_ordinal_tolerates_surrounding_whitespace_and_a_plus_sign() {
    assert_eq!(cfi_spine_ordinal("  epubcfi(/6/8!/4)  "), Some(4));
    assert_eq!(cfi_spine_ordinal("epubcfi(/6/+8!/4)"), Some(4));
    assert_eq!(cfi_spine_ordinal("epubcfi(/6/14!/4/2"), None);
    assert_eq!(cfi_spine_ordinal("epubcfi()"), None);
    assert_eq!(cfi_spine_ordinal("epubcfi("), None);
}
