use music_bot::query::{classify, is_link, select_payload, starts_with, QueryKind};

#[test]
fn http_and_https_queries_are_links() {
    assert!(is_link("https://www.youtube.com/watch?v=dQw4w9WgXcQ"));
    assert!(is_link("http://example.org/track.mp3"));
    assert!(is_link("http://"));
    assert!(is_link("https://"));
}

#[test]
fn everything_else_is_search_text() {
    assert!(!is_link(""));
    assert!(!is_link("Rammstein Rosenrot"));
    assert!(!is_link("http:/example.org"));
    assert!(!is_link("https:/"));
    assert!(!is_link("http"));
    assert!(!is_link("HTTP://example.org"));
    assert!(!is_link("Https://example.org"));
    assert!(!is_link(" https://example.org"));
    assert!(!is_link("ftp://example.org/file"));
    assert!(!is_link("see https://example.org"));
    assert!(!is_link("hättp://example.org"));
}

#[test]
fn classify_follows_is_link() {
    assert_eq!(classify("https://example.org/a"), QueryKind::Link);
    assert_eq!(classify("http://example.org/a"), QueryKind::Link);
    assert_eq!(classify("example.org/a"), QueryKind::Search);
    assert_eq!(classify(""), QueryKind::Search);
}

#[test]
fn starts_with_compares_characters() {
    assert!(starts_with("abc", ""));
    assert!(starts_with("", ""));
    assert!(starts_with("abc", "abc"));
    assert!(starts_with("abc", "ab"));
    assert!(!starts_with("ab", "abc"));
    assert!(!starts_with("abc", "b"));
    assert!(starts_with("äöü", "äö"));
    assert!(!starts_with("aöü", "äö"));
}

#[test]
fn link_payload_is_every_track() {
    assert_eq!(select_payload(QueryKind::Link, vec![1, 2, 3]), vec![1, 2, 3]);
    assert_eq!(select_payload(QueryKind::Link, vec![1]), vec![1]);
    assert_eq!(select_payload(QueryKind::Link, Vec::<u32>::new()), Vec::<u32>::new());
}

#[test]
fn search_payload_is_the_first_track() {
    assert_eq!(select_payload(QueryKind::Search, vec![1, 2, 3]), vec![1]);
    assert_eq!(select_payload(QueryKind::Search, vec![5]), vec![5]);
    assert_eq!(select_payload(QueryKind::Search, Vec::<u32>::new()), Vec::<u32>::new());
}
