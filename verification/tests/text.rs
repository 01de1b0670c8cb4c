use weather_lookup::text::{chars_of, contains_chars, fold_case, matches_at};

fn chars(s: &str) -> Vec<char> {
    s.chars().collect()
}

#[test]
fn chars_of_keeps_every_character_in_order() {
    assert_eq!(chars_of("Paris"), vec!['P', 'a', 'r', 'i', 's']);
    assert_eq!(chars_of(""), Vec::<char>::new());
    assert_eq!(chars_of("Köln"), vec!['K', 'ö', 'l', 'n']);
}

#[test]
fn fold_case_lowers_letters() {
    assert_eq!(fold_case("GER"), vec!['g', 'e', 'r']);
    assert_eq!(fold_case("Germany"), chars("germany"));
    assert_eq!(fold_case("ÖSTERREICH"), chars("österreich"));
}

#[test]
fn fold_case_leaves_what_has_no_case() {
    assert_eq!(fold_case("côte d'ivoire 225"), chars("côte d'ivoire 225"));
    assert_eq!(fold_case(""), Vec::<char>::new());
}

#[test]
fn matches_at_compares_the_window_at_a_position() {
    let hay = chars("germany");
    assert!(matches_at(&hay, &chars("ger"), 0));
    assert!(matches_at(&hay, &chars("many"), 3));
    assert!(!matches_at(&hay, &chars("many"), 2));
    assert!(!matches_at(&hay, &chars("ger"), 1));
}

#[test]
fn matches_at_is_false_where_the_window_runs_past_the_end() {
    let hay = chars("abc");
    assert!(!matches_at(&hay, &chars("c"), 3));
    assert!(!matches_at(&hay, &chars("bcd"), 1));
    assert!(!matches_at(&hay, &chars("abcd"), 0));
    assert!(!matches_at(&hay, &chars("a"), usize::MAX));
}

#[test]
fn matches_at_finds_the_empty_needle_up_to_the_end() {
    let hay = chars("abc");
    let empty: Vec<char> = Vec::new();
    assert!(matches_at(&hay, &empty, 0));
    assert!(matches_at(&hay, &empty, 3));
    assert!(!matches_at(&hay, &empty, 4));
}

#[test]
fn contains_chars_finds_an_infix_anywhere() {
    let hay = chars("united kingdom");
    assert!(contains_chars(&hay, &chars("united")));
    assert!(contains_chars(&hay, &chars("ted k")));
    assert!(contains_chars(&hay, &chars("kingdom")));
    assert!(contains_chars(&hay, &chars("united kingdom")));
}

#[test]
fn contains_chars_rejects_what_is_not_contiguous() {
    let hay = chars("germany");
    assert!(!contains_chars(&hay, &chars("de")));
    assert!(!contains_chars(&hay, &chars("gmy")));
    assert!(!contains_chars(&hay, &chars("germanys")));
    assert!(!contains_chars(&hay, &chars("Ger")));
}

#[test]
fn contains_chars_takes_a_match_after_a_false_start() {
    assert!(contains_chars(&chars("aab"), &chars("ab")));
    assert!(contains_chars(&chars("ananas"), &chars("nas")));
}

#[test]
fn contains_chars_with_empty_sides() {
    let empty: Vec<char> = Vec::new();
    assert!(contains_chars(&chars("france"), &empty));
    assert!(contains_chars(&empty, &empty));
    assert!(!contains_chars(&empty, &chars("f")));
}

#[test]
fn contains_chars_agrees_with_the_search_of_the_standard_library() {
    let texts = [
        "",
        "a",
        "ab",
        "aab",
        "abab",
        "germany",
        "österreich",
        "côte d'ivoire",
        "日本",
        "日本国",
    ];
    for hay in texts {
        for needle in texts {
            assert_eq!(
                contains_chars(&chars(hay), &chars(needle)),
                hay.contains(needle),
                "{:?} in {:?}",
                needle,
                hay
            );
        }
    }
}
