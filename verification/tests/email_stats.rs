use hm_discord_bot::email_stats::{
    connection_url, digest_key, get_email_stats, get_email_used_verification,
    get_email_used_verification_success, hash_email, increment_email_used_verification,
    increment_email_used_verification_success, parse_port, set_email_stats,
    MAIN_DISCORD_LOG_CHANNEL_KEY,
};

#[test]
fn hash_email_is_the_sha1_digest_in_hex() {
    assert_eq!(hash_email(""), "da39a3ee5e6b4b0d3255bfef95601890afd80709");
    assert_eq!(hash_email("abc"), "a9993e364706816aba3e25717850c26c9cd0d89d");
    assert_eq!(
        hash_email("The quick brown fox jumps over the lazy dog"),
        "2fd4e1c67a2d28fced849ee1bb76e7391b93eb12"
    );
    assert_ne!(hash_email("a@hm.edu"), hash_email("b@hm.edu"));
    assert_eq!(hash_email("a@hm.edu").len(), 40);
    assert_ne!(hash_email("a@hm.edu"), "a@hm.edu");
}

#[test]
fn digest_key_writes_two_digits_for_each_byte() {
    assert_eq!(digest_key(&[]), "");
    assert_eq!(digest_key(&[1, 2, 3, 15, 16]), "0102030f10");
    assert_eq!(digest_key(&[0x00, 0x9a, 0xbc, 0xde, 0xff]), "009abcdeff");
    assert_eq!(digest_key("Hello world!".as_bytes()), "48656c6c6f20776f726c6421");
}

#[test]
fn missing_value_counts_as_zero() {
    assert_eq!(get_email_stats(None), Ok((0, 0)));
}

#[test]
fn stats_are_two_numbers_with_a_comma() {
    assert_eq!(get_email_stats(Some("0,0")), Ok((0, 0)));
    assert_eq!(get_email_stats(Some("3,14")), Ok((3, 14)));
    assert_eq!(get_email_stats(Some("+3,014")), Ok((3, 14)));
    assert_eq!(
        get_email_stats(Some("18446744073709551615,18446744073709551615")),
        Ok((u64::MAX, u64::MAX))
    );
}

#[test]
fn anything_else_is_no_stats() {
    for value in [
        "", ",", "1", "1,", ",1", "1,2,3", "1,,2", "a,b", "1, 2", " 1,2", "1;2", "-1,2", "1.5,2",
        "18446744073709551616,0", "0,18446744073709551616",
    ] {
        assert_eq!(get_email_stats(Some(value)), Err(()), "{:?}", value);
    }
}

#[test]
fn stats_are_read_back_as_written() {
    assert_eq!(set_email_stats(0, 0), "0,0");
    assert_eq!(set_email_stats(12, 345), "12,345");
    for (successful, used) in [(0u64, 0u64), (1, 0), (0, 1), (99, 100), (u64::MAX, 7), (7, u64::MAX)] {
        let text = set_email_stats(successful, used);
        assert_eq!(get_email_stats(Some(text.as_str())), Ok((successful, used)));
    }
}

#[test]
fn counting_adds_one_to_its_own_count() {
    assert_eq!(increment_email_used_verification_success((4, 9)), Ok((5, 9)));
    assert_eq!(increment_email_used_verification((4, 9)), Ok((4, 10)));
    assert_eq!(increment_email_used_verification_success((u64::MAX, 9)), Err(()));
    assert_eq!(increment_email_used_verification((4, u64::MAX)), Err(()));
    assert_eq!(increment_email_used_verification_success((u64::MAX - 1, 0)), Ok((u64::MAX, 0)));
    assert_eq!(get_email_used_verification_success((4, 9)), 4);
    assert_eq!(get_email_used_verification((4, 9)), 9);
}

#[test]
fn port_is_read_or_falls_back() {
    assert_eq!(parse_port(None, 6379), Some(6379));
    assert_eq!(parse_port(Some("3306"), 6379), Some(3306));
    assert_eq!(parse_port(Some("0"), 6379), Some(0));
    assert_eq!(parse_port(Some("65535"), 6379), Some(65535));
    assert_eq!(parse_port(Some("65536"), 6379), None);
    assert_eq!(parse_port(Some("port"), 6379), None);
    assert_eq!(parse_port(Some(""), 6379), None);
}

#[test]
fn connection_url_names_host_and_port() {
    assert_eq!(connection_url("127.0.0.1", 6379), "redis://127.0.0.1:6379");
    assert_eq!(connection_url("cache", 1), "redis://cache:1");
    assert_eq!(MAIN_DISCORD_LOG_CHANNEL_KEY, "main_discord_log_channel");
}
