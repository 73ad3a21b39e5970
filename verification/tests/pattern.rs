use webview_shell::pattern::{matches_any, same_text, UrlPattern};

fn exact(text: &str) -> UrlPattern {
    UrlPattern::Exact(text.to_string())
}

fn prefix(text: &str) -> UrlPattern {
    UrlPattern::Prefix(text.to_string())
}

fn contains(text: &str) -> UrlPattern {
    UrlPattern::Contains(text.to_string())
}

#[test]
fn exact_matches_only_the_same_text() {
    let p = exact("https://example.com/");
    assert!(p.matches("https://example.com/"));
    assert!(!p.matches("https://example.com"));
    assert!(!p.matches("https://example.com/a"));
    assert!(!p.matches("https://example.com/?q=1"));
    assert!(!p.matches("Https://example.com/"));
    assert!(!p.matches(""));
}

#[test]
fn exact_tells_equal_lengths_apart() {
    let p = exact("abcd");
    assert!(!p.matches("abce"));
    assert!(!p.matches("xbcd"));
    assert!(p.matches("abcd"));
}

#[test]
fn prefix_matches_the_start_of_a_url() {
    let p = prefix("https://example.com/?");
    assert!(p.matches("https://example.com/?"));
    assert!(p.matches("https://example.com/?q=rust"));
    assert!(!p.matches("https://example.com/"));
    assert!(!p.matches("https://example.com/signin?"));
    assert!(!p.matches("x https://example.com/?"));
}

#[test]
fn prefix_longer_than_the_url_does_not_match() {
    assert!(!prefix("https://example.com/assistant").matches("https://example.com/"));
    assert!(!prefix("ab").matches("a"));
    assert!(!prefix("a").matches(""));
}

#[test]
fn contains_matches_at_every_position() {
    let p = contains("/signin");
    assert!(p.matches("/signin"));
    assert!(p.matches("/signin?next=1"));
    assert!(p.matches("https://example.com/signin"));
    assert!(p.matches("https://example.com/signin/step"));
    assert!(!p.matches("https://example.com/sign-in"));
    assert!(!p.matches("https://example.com/signi"));
    assert!(!p.matches("/signi"));
    assert!(!p.matches(""));
}

#[test]
fn contains_survives_a_false_start() {
    assert!(contains("aab").matches("aaab"));
    assert!(contains("abab").matches("ababab"));
    assert!(contains("ab").matches("aab"));
    assert!(!contains("aab").matches("abaa"));
}

#[test]
fn empty_patterns() {
    assert!(exact("").matches(""));
    assert!(!exact("").matches("a"));
    assert!(prefix("").matches(""));
    assert!(prefix("").matches("anything"));
    assert!(contains("").matches(""));
    assert!(contains("").matches("anything"));
}

#[test]
fn patterns_compare_characters_not_bytes() {
    assert!(contains("é/").matches("https://example.com/café/menu"));
    assert!(!contains("e/").matches("https://example.com/café/menu"));
    assert!(prefix("日本").matches("日本語"));
    assert!(exact("日本語").matches("日本語"));
    assert!(!exact("日本語").matches("日本"));
}

#[test]
fn matches_any_finds_a_match_wherever_it_stands() {
    let pats = vec![exact("a"), prefix("b"), contains("c")];
    assert!(matches_any(&pats, "a"));
    assert!(matches_any(&pats, "bx"));
    assert!(matches_any(&pats, "xxc"));
    assert!(!matches_any(&pats, "ab"));
    assert!(!matches_any(&pats, "xb"));
    assert!(!matches_any(&pats, ""));
}

#[test]
fn matches_any_of_nothing_is_false() {
    let pats: Vec<UrlPattern> = Vec::new();
    assert!(!matches_any(&pats, "https://example.com/"));
    assert!(!matches_any(&pats, ""));
}

#[test]
fn same_text_compares_whole_strings() {
    assert!(same_text("show", "show"));
    assert!(!same_text("show", "Show"));
    assert!(!same_text("show", "sho"));
    assert!(!same_text("sho", "show"));
    assert!(same_text("", ""));
    assert!(!same_text("", "a"));
}
