use uptime::{count_users, load_fields, split_words, uptime_token};

#[test]
fn words_split_at_any_white_space() {
    assert_eq!(split_words("  12.5\t3.0\n"), vec!["12.5".to_string(), "3.0".to_string()]);
    assert_eq!(split_words("a\u{a0}b\u{3000}c"), vec!["a", "b", "c"]);
    assert!(split_words("").is_empty());
    assert!(split_words(" \n\t ").is_empty());
}

#[test]
fn uptime_token_is_first_word() {
    assert_eq!(uptime_token("350735.47 234388.90\n"), "350735.47");
}

#[test]
fn uptime_token_defaults_to_zero() {
    assert_eq!(uptime_token(""), "0");
    assert_eq!(uptime_token("  \n"), "0");
}

#[test]
fn load_fields_are_first_three_words() {
    let f = load_fields("0.52 0.58 0.59 1/467 12345\n").unwrap();
    assert_eq!(f, ("0.52".to_string(), "0.58".to_string(), "0.59".to_string()));
}

#[test]
fn load_fields_malformed_middle() {
    let (a, b, c) = load_fields("0.5 x 0.7\n").unwrap();
    assert_eq!(b, "x");
    let parse = |s: &str| s.parse::<f32>().unwrap_or(0.0);
    assert_eq!((parse(&a), parse(&b), parse(&c)), (0.5, 0.0, 0.7));
}

#[test]
fn load_fields_need_three_words() {
    assert!(load_fields("0.1 0.2\n").is_none());
    assert!(load_fields("").is_none());
}

#[test]
fn users_all_clear_records() {
    for k in 0..4usize {
        assert_eq!(count_users(&vec![0u8; 384 * (k + 2)]), 0);
    }
}

#[test]
fn users_one_byte_one_session() {
    let k = 3usize;
    for r in 2..k + 2 {
        for off in [44usize, 60, 73] {
            let mut data = vec![0u8; 384 * (k + 2)];
            data[384 * r + off] = 9;
            assert_eq!(count_users(&data), 1);
        }
    }
}

#[test]
fn users_bytes_outside_the_field_do_not_count() {
    let mut data = vec![0u8; 384 * 4];
    data[384 * 2 + 43] = 1;
    data[384 * 2 + 74] = 1;
    data[384 * 3] = 1;
    assert_eq!(count_users(&data), 0);
}

#[test]
fn users_first_two_records_are_skipped() {
    let mut data = vec![0u8; 384 * 4];
    data[44] = 1;
    data[384 + 50] = 1;
    assert_eq!(count_users(&data), 0);
    data[384 * 3 + 50] = 1;
    assert_eq!(count_users(&data), 1);
}

#[test]
fn users_trailing_partial_record_is_not_read() {
    let mut data = vec![0u8; 384 * 3 + 50];
    data[384 * 3 + 45] = 1;
    assert_eq!(count_users(&data), 0);
    data[384 * 2 + 45] = 1;
    assert_eq!(count_users(&data), 1);
    let mut two_whole = vec![0u8; 1000];
    two_whole[812] = 1;
    assert_eq!(count_users(&two_whole), 0);
    let mut tail_only = vec![0u8; 1252];
    tail_only[1196] = 1;
    assert_eq!(count_users(&tail_only), 0);
    let short = vec![0u8; 100];
    assert_eq!(count_users(&short), 0);
    assert_eq!(count_users(&[]), 0);
}
