use plumber::clean_text::{cut_after_clusters, has_nul, remove_null_utf8, truncate};

#[test]
fn test_truncate() {
    let s1 = "ボルテックス";
    let s1t = truncate(s1, 3);
    assert_eq!(s1t, "ボルテ");
    assert_eq!(s1, truncate(s1, 99));
}

#[test]
fn truncate_keeps_clusters_whole() {
    // a flag is two code points but one cluster
    assert_eq!(truncate("🇷🇺🇸🇹", 1), "🇷🇺");
    assert_eq!(truncate("a\r\nb", 2), "a\r\n");
    assert_eq!(truncate("e\u{301}x", 1), "e\u{301}");
}

#[test]
fn truncate_edges() {
    assert_eq!(truncate("", 0), "");
    assert_eq!(truncate("", 5), "");
    assert_eq!(truncate("abc", 0), "");
    assert_eq!(truncate("abc", 3), "abc");
    assert_eq!(truncate("abc", 2), "ab");
}

#[test]
fn remove_null_drops_only_nul() {
    assert_eq!(remove_null_utf8("a\0b\0\0c".to_string()), "abc");
    assert_eq!(remove_null_utf8("plain".to_string()), "plain");
    assert_eq!(remove_null_utf8("\0".to_string()), "");
    assert_eq!(remove_null_utf8("ボ\0ル".to_string()), "ボル");
}

fn pieces(v: &[&str]) -> Vec<String> {
    v.iter().map(|p| p.to_string()).collect()
}

#[test]
fn cut_after_given_clusters() {
    let s = "abcde";
    let cl = pieces(&["ab", "c", "de"]);
    assert_eq!(cut_after_clusters(s, &cl, 0), "");
    assert_eq!(cut_after_clusters(s, &cl, 1), "ab");
    assert_eq!(cut_after_clusters(s, &cl, 2), "abc");
    assert_eq!(cut_after_clusters(s, &cl, 3), "abcde");
    assert_eq!(cut_after_clusters(s, &cl, 10), "abcde");
    let k = "ボルテックス";
    let kc = pieces(&["ボ", "ル", "テ", "ッ", "ク", "ス"]);
    assert_eq!(cut_after_clusters(k, &kc, 3), "ボルテ");
}

#[test]
fn truncate_twice_is_truncate_once() {
    let s = "e\u{301}a\r\n🇷🇺b";
    assert_eq!(truncate(truncate(s, 3), 3), truncate(s, 3));
    assert!(s.starts_with(truncate(s, 2)));
}

#[test]
fn nul_detection() {
    assert!(has_nul("a\0"));
    assert!(has_nul("\0"));
    assert!(!has_nul(""));
    assert!(!has_nul("ボルテ"));
}

#[test]
fn remove_null_keeps_text_without_nul() {
    let s = "no nul here".to_string();
    let ptr = s.as_ptr();
    let r = remove_null_utf8(s);
    assert_eq!(r, "no nul here");
    assert_eq!(r.as_ptr(), ptr);
    assert_eq!(remove_null_utf8("\0\0a\0".to_string()), "a");
    assert_eq!(remove_null_utf8("".to_string()), "");
}
