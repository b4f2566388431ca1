use api_clients::query::{push_decimal, QueryArgs};

fn pairs_of(args: &QueryArgs) -> Vec<(String, String)> {
    args.pairs.clone()
}

fn pair(name: &str, value: &str) -> (String, String) {
    (name.to_string(), value.to_string())
}

fn decimal(n: u64) -> String {
    let mut out = String::new();
    push_decimal(&mut out, n);
    out
}

#[test]
fn new_query_is_empty() {
    let args = QueryArgs::new();
    assert!(args.pairs.is_empty());
    assert_eq!(args.encode(), "");
}

#[test]
fn empty_text_is_omitted() {
    let mut args = QueryArgs::new();
    args.push_str("before", "");
    assert!(pairs_of(&args).is_empty());
    assert_eq!(args.encode(), "");
}

#[test]
fn text_is_kept() {
    let mut args = QueryArgs::new();
    args.push_str("before", "1457989166");
    assert_eq!(pairs_of(&args), vec![pair("before", "1457989166")]);
    assert_eq!(args.encode(), "before=1457989166");
}

#[test]
fn zero_is_omitted() {
    let mut args = QueryArgs::new();
    args.push_i64("tokenLifetimeSeconds", 0);
    assert!(pairs_of(&args).is_empty());
}

#[test]
fn negative_number_is_omitted() {
    let mut args = QueryArgs::new();
    args.push_i64("tokenLifetimeSeconds", -1);
    args.push_i64("tokenLifetimeSeconds", i64::MIN);
    assert!(pairs_of(&args).is_empty());
    assert_eq!(args.encode(), "");
}

#[test]
fn positive_number_is_kept_in_decimal() {
    let mut args = QueryArgs::new();
    args.push_i64("tokenLifetimeSeconds", 300);
    assert_eq!(pairs_of(&args), vec![pair("tokenLifetimeSeconds", "300")]);
    assert_eq!(args.encode(), "tokenLifetimeSeconds=300");
}

#[test]
fn largest_number_is_kept() {
    let mut args = QueryArgs::new();
    args.push_i64("n", i64::MAX);
    assert_eq!(args.encode(), "n=9223372036854775807");
}

#[test]
fn flag_off_is_omitted() {
    let mut args = QueryArgs::new();
    args.push_bool("activate", false);
    assert!(pairs_of(&args).is_empty());
}

#[test]
fn flag_on_is_sent_as_true() {
    let mut args = QueryArgs::new();
    args.push_bool("activate", true);
    assert_eq!(pairs_of(&args), vec![pair("activate", "true")]);
    assert_eq!(args.encode(), "activate=true");
}

#[test]
fn absent_parameters_leave_no_trace_between_present_ones() {
    let mut args = QueryArgs::new();
    args.push_str("before", "10");
    args.push_str("count", "");
    args.push_i64("limit", 0);
    args.push_bool("verbose", false);
    args.push_str("page", "2");
    let query = args.encode();
    assert_eq!(query, "before=10&page=2");
    assert!(!query.contains("count"));
    assert!(!query.contains("limit"));
    assert!(!query.contains("verbose"));
}

#[test]
fn pairs_keep_their_order() {
    let mut args = QueryArgs::new();
    args.push_str("z", "1");
    args.push_str("a", "2");
    args.push_str("m", "3");
    assert_eq!(args.encode(), "z=1&a=2&m=3");
}

#[test]
fn same_name_twice_is_sent_twice() {
    let mut args = QueryArgs::new();
    args.push_str("tag", "a");
    args.push_str("tag", "b");
    assert_eq!(args.encode(), "tag=a&tag=b");
}

#[test]
fn space_becomes_plus() {
    let mut args = QueryArgs::new();
    args.push_str("q", "bar & baz");
    assert_eq!(args.encode(), "q=bar+%26+baz");
}

#[test]
fn plus_and_non_ascii_are_escaped() {
    let mut args = QueryArgs::new();
    args.push_str("saison", "Été+hiver");
    assert_eq!(args.encode(), "saison=%C3%89t%C3%A9%2Bhiver");
}

#[test]
fn names_are_encoded_too() {
    let mut args = QueryArgs::new();
    args.push_str("a b&c=d", "x");
    assert_eq!(args.encode(), "a+b%26c%3Dd=x");
}

#[test]
fn plain_punctuation_of_forms_stays() {
    let mut args = QueryArgs::new();
    args.push_str("k", "a*b-c.d_e");
    assert_eq!(args.encode(), "k=a*b-c.d_e");
}

#[test]
fn tilde_is_escaped_in_a_query() {
    let mut args = QueryArgs::new();
    args.push_str("k", "~");
    assert_eq!(args.encode(), "k=%7E");
}

#[test]
fn a_meal_is_encoded() {
    let mut args = QueryArgs::new();
    args.push_str("bread", "baguette");
    args.push_str("cheese", "comté");
    args.push_str("meat", "ham");
    args.push_str("fat", "butter");
    assert_eq!(args.encode(), "bread=baguette&cheese=comt%C3%A9&meat=ham&fat=butter");
}

#[test]
fn encoding_changes_what_needs_escaping() {
    let args = QueryArgs { pairs: vec![pair("a b", "c/d")] };
    let query = args.encode();
    assert_eq!(query, "a+b=c%2Fd");
    assert_ne!(query, "a b=c/d");
}

#[test]
fn empty_name_and_value_still_make_a_field() {
    let args = QueryArgs { pairs: vec![pair("", ""), pair("", "")] };
    assert_eq!(args.encode(), "=&=");
}

#[test]
fn decimal_of_small_numbers() {
    assert_eq!(decimal(0), "0");
    assert_eq!(decimal(7), "7");
    assert_eq!(decimal(9), "9");
    assert_eq!(decimal(10), "10");
    assert_eq!(decimal(99), "99");
    assert_eq!(decimal(100), "100");
}

#[test]
fn decimal_of_large_numbers() {
    assert_eq!(decimal(1234567890), "1234567890");
    assert_eq!(decimal(u64::MAX), "18446744073709551615");
}

#[test]
fn decimal_is_appended() {
    let mut out = String::from("n=");
    push_decimal(&mut out, 42);
    push_decimal(&mut out, 0);
    assert_eq!(out, "n=420");
}

#[test]
fn decimal_agrees_with_the_standard_library() {
    let mut n: u64 = 1;
    while n < u64::MAX / 7 {
        assert_eq!(decimal(n), n.to_string());
        assert_eq!(decimal(n - 1), (n - 1).to_string());
        n *= 7;
    }
}
