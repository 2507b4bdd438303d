use pp_recalc::client::{leaderboard_url, player_scores_url};
use pp_recalc::text::{parse_bool, parse_u8, str_eq, u64_to_string};

#[test]
fn formats_decimals() {
    assert_eq!(u64_to_string(0), "0");
    assert_eq!(u64_to_string(7), "7");
    assert_eq!(u64_to_string(10), "10");
    assert_eq!(u64_to_string(1234567890), "1234567890");
    assert_eq!(u64_to_string(u64::MAX), "18446744073709551615");
}

#[test]
fn parses_u8_like_std() {
    assert_eq!(parse_u8("0"), Some(0));
    assert_eq!(parse_u8("9"), Some(9));
    assert_eq!(parse_u8("255"), Some(255));
    assert_eq!(parse_u8("256"), None);
    assert_eq!(parse_u8("999999999999999999999"), None);
    assert_eq!(parse_u8(""), None);
    assert_eq!(parse_u8("+7"), Some(7));
    assert_eq!(parse_u8("+"), None);
    assert_eq!(parse_u8("007"), Some(7));
    assert_eq!(parse_u8("12a"), None);
    assert_eq!(parse_u8("-1"), None);
    assert_eq!(parse_u8(" 1"), None);
    // agreement with the standard library on a few samples
    for s in ["0", "255", "256", "+17", "x", "", "0042"] {
        assert_eq!(parse_u8(s), s.parse::<u8>().ok());
    }
}

#[test]
fn parses_bool_like_std() {
    assert_eq!(parse_bool("true"), Some(true));
    assert_eq!(parse_bool("false"), Some(false));
    assert_eq!(parse_bool("True"), None);
    assert_eq!(parse_bool("1"), None);
    assert_eq!(parse_bool(""), None);
}

#[test]
fn compares_strings() {
    assert!(str_eq("abc", "abc"));
    assert!(!str_eq("abc", "abd"));
    assert!(!str_eq("abc", "abcd"));
    assert!(str_eq("", ""));
}

#[test]
fn builds_leaderboard_url() {
    assert_eq!(
        leaderboard_url("https://api.example.net/v1", 3),
        "https://api.example.net/v1/get_leaderboard?mode=3&limit=10"
    );
}

#[test]
fn builds_player_scores_url() {
    assert_eq!(
        player_scores_url("https://api.example.net/v1", 1048576, 0),
        "https://api.example.net/v1/get_player_scores?id=1048576&mode=0&scope=best&limit=10"
    );
}
