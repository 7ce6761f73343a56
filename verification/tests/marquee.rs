use omnibus_pages::marquee::{render_stage, stage_audio_only, stage_wish_mode, LoadSeq};
use omnibus_pages::marquee::{
    description_overflows, short_chapter_title, DESC_CLAMP_WORDS, MARQUEE_SECTIONS,
};

#[test]
fn marquee_sections_run_home_to_more_in_six_sections() {
    let names: Vec<&str> = MARQUEE_SECTIONS.iter().map(|(_, name)| *name).collect();
    assert_eq!(
        names,
        ["Home", "Stats", "Highlights", "Journals", "The files", "More"]
    );
}

#[test]
fn marquee_section_numbers_match_their_position() {
    for (i, (no, name)) in MARQUEE_SECTIONS.iter().enumerate() {
        assert_eq!(
            *no,
            format!("{:02}", i + 1),
            "{name} carries the wrong number for its position"
        );
    }
}

#[test]
fn short_chapter_title_keeps_a_terse_title_and_caps_a_verbose_one() {
    assert_eq!(short_chapter_title("Cinder"), "Cinder");
    assert_eq!(
        short_chapter_title("CHAPTER XIII DR. SEWARD'S DIARY\u{2014}continued"),
        "CHAPTER XIII DR. SEWARD'S\u{2026}"
    );
    // Breaks on a word boundary and trims a trailing dash/comma.
    assert_eq!(
        short_chapter_title("The Vestibule of the Sixteenth Hall, north"),
        "The Vestibule of the Sixteenth\u{2026}"
    );
}

#[test]
fn short_chapter_title_trims_and_cuts_an_unbroken_title_at_the_cap() {
    assert_eq!(short_chapter_title("  Cinder \n"), "Cinder");
    let long = "x".repeat(40);
    let out = short_chapter_title(&long);
    assert_eq!(out.chars().count(), 33);
    assert!(out.ends_with('\u{2026}'));
    assert_eq!(
        short_chapter_title("One, two, three, four, five, six, seven"),
        "One, two, three, four, five\u{2026}"
    );
}

#[test]
fn description_overflows_only_past_the_clamps_worth_of_words() {
    let short = "A dozen words is nowhere near five rendered lines of blurb text.";
    assert!(!description_overflows(short));
    let long = "word ".repeat(DESC_CLAMP_WORDS + 1);
    assert!(description_overflows(&long));
    // Markup is not text — a heavily tagged short blurb must not trip it.
    let tagged = "<em>one</em> <em>two</em> <em>three</em>".repeat(3);
    assert!(!description_overflows(&tagged));
}

#[test]
fn description_overflows_exactly_at_one_word_past_the_clamp() {
    assert!(!description_overflows(&"w ".repeat(DESC_CLAMP_WORDS)));
    assert!(description_overflows(&"w ".repeat(DESC_CLAMP_WORDS + 1)));
    // Tags break words: these are separate words, not one.
    let tagged = "<b>a</b>".repeat(DESC_CLAMP_WORDS + 1);
    assert!(description_overflows(&tagged));
}

#[test]
fn the_stage_labels_each_section_and_points_to_the_next() {
    let stops: Vec<String> = (0..6).map(|i| format!("<p>stop {i}</p>")).collect();
    let html = render_stage("<img/>", &stops);
    assert!(html.contains("data-testid=\"bdmq-dot-0\""));
    assert!(html.contains("class=\"bdmq-dotrow on\""));
    assert_eq!(html.matches("class=\"bdmq-dotrow on\"").count(), 1);
    assert!(html.contains("01 · Home"));
    assert!(html.contains("02 / 06 \u{2014} <b>Stats</b>"));
    assert!(html.contains("scroll \u{2014} next: Highlights"));
    assert_eq!(html.matches("bdmq-next").count(), 5);
    assert!(html.contains("<p>stop 5</p>"));
}

#[test]
fn a_stale_load_is_never_current() {
    let mut seq = LoadSeq::new();
    let first = seq.begin();
    assert!(seq.is_current(first));
    let second = seq.begin();
    assert!(!seq.is_current(first));
    assert!(seq.is_current(second));
}

#[test]
fn stage_modes_follow_the_book() {
    assert!(stage_wish_mode(true, true));
    assert!(!stage_wish_mode(false, true));
    assert!(stage_audio_only(true, false, false));
    assert!(!stage_audio_only(true, true, false));
}
