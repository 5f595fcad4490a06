use bustcall::cache::{CacheEntryHandle, InvalidationResult};
use bustcall::package::PackageIdentifier;
use bustcall::probe::{chars_of, check_cache_integrity, contains_chars, matches_at};

fn chars(text: &str) -> Vec<char> {
    text.chars().collect()
}

#[test]
fn probe_scores_by_marker() {
    assert_eq!(check_cache_integrity("corrupt"), 10);
    assert_eq!(check_cache_integrity("warn"), 5);
    assert_eq!(check_cache_integrity("serde"), 1);
}

#[test]
fn probe_finds_marker_inside_name() {
    assert_eq!(check_cache_integrity("my-corrupt-pkg"), 10);
    assert_eq!(check_cache_integrity("libwarnings"), 5);
    assert_eq!(check_cache_integrity("xxcorrupt"), 10);
    assert_eq!(check_cache_integrity("warnxx"), 5);
}

#[test]
fn probe_corruption_outranks_warning() {
    assert_eq!(check_cache_integrity("warn-corrupt"), 10);
    assert_eq!(check_cache_integrity("corrupt-warn"), 10);
}

#[test]
fn probe_needs_the_whole_marker() {
    assert_eq!(check_cache_integrity("corrup"), 1);
    assert_eq!(check_cache_integrity("orrupt"), 1);
    assert_eq!(check_cache_integrity("war"), 1);
    assert_eq!(check_cache_integrity("cor-rupt"), 1);
    assert_eq!(check_cache_integrity("w-a-r-n"), 1);
}

#[test]
fn probe_is_case_sensitive() {
    assert_eq!(check_cache_integrity("Corrupt"), 1);
    assert_eq!(check_cache_integrity("WARN"), 1);
}

#[test]
fn probe_handles_repeated_prefixes() {
    assert_eq!(check_cache_integrity("wawarn"), 5);
    assert_eq!(check_cache_integrity("corcorrupt"), 10);
    assert_eq!(check_cache_integrity("cocorrup"), 1);
}

#[test]
fn probe_handles_empty_and_non_ascii() {
    assert_eq!(check_cache_integrity(""), 1);
    assert_eq!(check_cache_integrity("wärn"), 1);
    assert_eq!(check_cache_integrity("пакет-warn"), 5);
    assert_eq!(check_cache_integrity("包corrupt包"), 10);
}

#[test]
fn probe_is_repeatable() {
    for name in ["corrupt", "warn", "plain", ""] {
        assert_eq!(check_cache_integrity(name), check_cache_integrity(name));
    }
}

#[test]
fn probe_agrees_with_substring_search() {
    let names = [
        "", "w", "warn", "nwarn", "warnwarn", "corrupt", "corruptwarn", "c", "tpurroc", "a-warn-b",
        "warm", "corrupted", "uncorrupted", "é-corrupt", "forewarned",
    ];
    for name in names {
        let expected = if name.contains("corrupt") {
            10
        } else if name.contains("warn") {
            5
        } else {
            1
        };
        assert_eq!(check_cache_integrity(name), expected, "{}", name);
    }
}

#[test]
fn chars_of_lists_characters() {
    assert_eq!(chars_of("abc"), vec!['a', 'b', 'c']);
    assert_eq!(chars_of(""), Vec::<char>::new());
    assert_eq!(chars_of("é包"), vec!['é', '包']);
}

#[test]
fn contains_chars_cases() {
    assert!(contains_chars(&chars("hello world"), &chars("o w")));
    assert!(contains_chars(&chars("hello"), &chars("hello")));
    assert!(contains_chars(&chars("hello"), &chars("lo")));
    assert!(contains_chars(&chars("hello"), &chars("he")));
    assert!(!contains_chars(&chars("hello"), &chars("hello!")));
    assert!(!contains_chars(&chars("hello"), &chars("ol")));
    assert!(!contains_chars(&chars(""), &chars("a")));
}

#[test]
fn contains_chars_empty_needle() {
    assert!(contains_chars(&chars("abc"), &chars("")));
    assert!(contains_chars(&chars(""), &chars("")));
}

#[test]
fn matches_at_positions() {
    let hay = chars("abcabc");
    let needle = chars("bc");
    assert!(!matches_at(&hay, &needle, 0));
    assert!(matches_at(&hay, &needle, 1));
    assert!(!matches_at(&hay, &needle, 2));
    assert!(matches_at(&hay, &needle, 4));
    assert!(matches_at(&hay, &chars(""), 6));
}

#[test]
fn matches_at_past_the_end() {
    let hay = chars("abc");
    assert!(!matches_at(&hay, &chars("c"), 3));
    assert!(!matches_at(&hay, &chars("bcd"), 1));
    assert!(!matches_at(&hay, &chars(""), 4));
    assert!(!matches_at(&hay, &chars("a"), usize::MAX));
}

#[test]
fn package_identifier_refuses_empty() {
    assert!(PackageIdentifier::new("").is_none());
}

#[test]
fn package_identifier_keeps_text() {
    let pkg = PackageIdentifier::new("serde").unwrap();
    assert_eq!(pkg.as_str(), "serde");
    assert_eq!(pkg.clone().as_str(), "serde");
    let odd = PackageIdentifier::new(" ").unwrap();
    assert_eq!(odd.as_str(), " ");
}

#[test]
fn handle_is_namespaced_path() {
    let pkg = PackageIdentifier::new("serde").unwrap();
    let handle = CacheEntryHandle::for_package(&pkg);
    assert_eq!(handle.as_str(), "/tmp/cache/serde");
}

#[test]
fn handle_is_stable_and_distinct() {
    let a = PackageIdentifier::new("alpha").unwrap();
    let b = PackageIdentifier::new("beta").unwrap();
    assert_eq!(CacheEntryHandle::for_package(&a), CacheEntryHandle::for_package(&a));
    assert_ne!(CacheEntryHandle::for_package(&a), CacheEntryHandle::for_package(&b));
    assert_ne!(CacheEntryHandle::for_package(&a).as_str(), "/tmp/cache/");
}

#[test]
fn absent_entry_is_no_failure() {
    assert!(!InvalidationResult::AlreadyAbsent.is_failure());
    assert!(!InvalidationResult::Removed.is_failure());
    assert!(InvalidationResult::Failed(String::from("permission denied")).is_failure());
}
