use llauncher::paths::{download_cache_in, file_name_of, is_download_cache, join_name};
use llauncher::text::{parse_size, parse_u64, push_decimal, to_hex_lower, url_file_name};

#[test]
fn parse_size_reads_plain_decimal_numbers() {
    assert_eq!(parse_size("123"), 123);
    assert_eq!(parse_size("0"), 0);
    assert_eq!(parse_size("007"), 7);
    assert_eq!(parse_size("+5"), 5);
}

#[test]
fn parse_size_is_zero_for_what_is_not_a_number() {
    assert_eq!(parse_size(""), 0);
    assert_eq!(parse_size("+"), 0);
    assert_eq!(parse_size("-5"), 0);
    assert_eq!(parse_size("12a"), 0);
    assert_eq!(parse_size(" 12"), 0);
    assert_eq!(parse_size("1_000"), 0);
}

#[test]
fn parse_u64_agrees_with_std_at_the_limits() {
    assert_eq!(parse_u64("18446744073709551615"), Some(u64::MAX));
    assert_eq!(parse_u64("18446744073709551616"), None);
    assert_eq!(parse_u64("99999999999999999999"), None);
    for s in ["", "+", "-0", "0", "+0", "42", "4x2", "+-1", "١٢"] {
        assert_eq!(parse_u64(s), s.parse::<u64>().ok(), "input {:?}", s);
    }
}

#[test]
fn url_file_name_is_the_last_segment() {
    assert_eq!(url_file_name("https://cdn.example.com/game/1.2/pack_01.zip"), "pack_01.zip");
    assert_eq!(url_file_name("pack.zip"), "pack.zip");
    assert_eq!(url_file_name("https://cdn.example.com/dir/"), "");
    assert_eq!(url_file_name(""), "");
}

#[test]
fn decimal_and_hex_notation() {
    let mut s = String::from("n=");
    push_decimal(&mut s, 0);
    assert_eq!(s, "n=0");
    let mut s = String::new();
    push_decimal(&mut s, 1234567890);
    assert_eq!(s, "1234567890");
    let mut s = String::new();
    push_decimal(&mut s, u64::MAX);
    assert_eq!(s, u64::MAX.to_string());
    assert_eq!(to_hex_lower(&[0x0a, 0x14, 0x1e]), "0a141e");
    assert_eq!(to_hex_lower(&[0x00, 0xff, 0xab]), "00ffab");
    assert_eq!(to_hex_lower(&[]), "");
}

#[test]
fn file_name_of_follows_std_paths() {
    for p in [
        "foo/_download",
        "foo/_download/",
        "foo/_download/.",
        "foo/_download/.//",
        "/",
        "",
        ".",
        "..",
        "foo/..",
        "foo/../",
        "../foo",
        "/home/user/Games/Endfield",
        "relative",
        "a//b",
    ] {
        let expected = std::path::Path::new(p)
            .file_name()
            .map(|n| n.to_string_lossy().to_string());
        assert_eq!(file_name_of(p), expected, "path {:?}", p);
    }
}

#[test]
fn only_the_launchers_cache_counts_as_download_cache() {
    assert!(is_download_cache("/games/endfield/_download"));
    assert!(is_download_cache("/games/endfield/_download/"));
    assert!(!is_download_cache("/home/user/Downloads"));
    assert!(!is_download_cache("/games/_download/x"));
    assert!(!is_download_cache("_download/.."));
}

#[test]
fn join_name_puts_one_separator() {
    assert_eq!(join_name("/games/endfield", "_download"), "/games/endfield/_download");
    assert_eq!(join_name("/games/endfield/", "_download"), "/games/endfield/_download");
    assert_eq!(join_name("", "_download"), "_download");
    for dir in ["/games/endfield", "/games/endfield/", "", "rel"] {
        let expected = std::path::Path::new(dir).join("_download").to_string_lossy().to_string();
        assert_eq!(download_cache_in(dir), expected);
    }
}
