use cymg::decimal::{parse_i32, parse_u32, parse_u64};

#[test]
fn unsigned_parsing_matches_std() {
    for s in ["", "+", "-", "0", "+7", "-7", "007", "12a", " 1", "4294967295", "4294967296", "٣"] {
        assert_eq!(parse_u32(s), s.parse::<u32>().ok(), "{s:?}");
    }
    for s in ["18446744073709551615", "18446744073709551616", "+18446744073709551615", "2077", "99999999999999999999999"] {
        assert_eq!(parse_u64(s), s.parse::<u64>().ok(), "{s:?}");
    }
}

#[test]
fn signed_parsing_matches_std() {
    for s in [
        "", "+", "-", "0", "-0", "+0", "9", "-9", "128", "-2147483648", "-2147483649", "2147483647",
        "2147483648", "--1", "+-1", "1-", "1_000",
    ] {
        assert_eq!(parse_i32(s), s.parse::<i32>().ok(), "{s:?}");
    }
}
