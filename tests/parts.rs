use cron_describe::field::{parse_exp_seg, parse_frac, parse_list, parse_number, parse_range, parse_sym, split_on};
use cron_describe::text::{
    decimal, join_oxford_comma, left_pad_if_not_empty, month_name, time_with_am_pm, weekday_name,
    with_ordinal_postfix,
};
use cron_describe::{parse_cron_exp, CronSymbol, ExpValue};

fn sentence(line: &str) -> Option<String> {
    parse_cron_exp(&String::from(line)).map(|e| e.to_string())
}

fn strings(items: &[&str]) -> Vec<String> {
    items.iter().map(|s| String::from(*s)).collect()
}

#[test]
fn every_sentence_ends_in_one_period() {
    for line in [
        "0 4 8-14 * *",
        "5 4 1,2,3 1 2",
        "*/5 */2 */3 */4 */5",
        "0,15,30,45 1-5 1,15 1,6,12 0,6",
        "* * * * *",
    ] {
        let s = sentence(line).unwrap();
        assert!(s.ends_with('.'));
        assert_eq!(s.matches('.').count(), 1, "{}", s);
    }
}

#[test]
fn oxford_list_of_one_two_three_four() {
    assert_eq!(join_oxford_comma(&strings(&["a"])), "a");
    assert_eq!(join_oxford_comma(&strings(&["a", "b"])), "a and b");
    assert_eq!(join_oxford_comma(&strings(&["a", "b", "c"])), "a, b, and c");
    assert_eq!(join_oxford_comma(&strings(&["a", "b", "c", "d"])), "a, b, c, and d");
}

#[test]
fn ordinal_suffixes() {
    let cases: [(usize, &str); 14] = [
        (0, "0th"),
        (1, "1st"),
        (2, "2nd"),
        (3, "3rd"),
        (4, "4th"),
        (10, "10th"),
        (11, "11th"),
        (12, "12th"),
        (13, "13th"),
        (21, "21st"),
        (22, "22nd"),
        (23, "23rd"),
        (111, "111st"),
        (112, "112nd"),
    ];
    for (n, want) in cases {
        assert_eq!(with_ordinal_postfix(&n), want);
    }
}

#[test]
fn clock_times() {
    assert_eq!(time_with_am_pm(&0, &0), "12:00 AM");
    assert_eq!(time_with_am_pm(&7, &1), "1:07 AM");
    assert_eq!(time_with_am_pm(&59, &11), "11:59 AM");
    assert_eq!(time_with_am_pm(&30, &12), "12:30 PM");
    assert_eq!(time_with_am_pm(&5, &14), "2:05 PM");
    assert_eq!(time_with_am_pm(&45, &23), "11:45 PM");
}

#[test]
fn time_only_schedules() {
    assert_eq!(sentence("5 14 * * *").unwrap(), "At 2:05 PM.");
    assert_eq!(sentence("* * * * *").unwrap(), "At every minute.");
    assert_eq!(sentence("30 * * * *").unwrap(), "At minute 30 every hour.");
}

#[test]
fn wrong_field_count_fails() {
    assert!(parse_cron_exp(&String::from("* * *")).is_none());
    assert!(parse_cron_exp(&String::from("* * * * * *")).is_none());
    assert!(parse_cron_exp(&String::from("")).is_none());
    assert!(parse_cron_exp(&String::from("*  * * * *")).is_none());
    assert!(parse_cron_exp(&String::from(" * * * * *")).is_none());
}

#[test]
fn bad_field_fails() {
    assert!(sentence("a * * * *").is_none());
    assert!(sentence("1,a * * * *").is_none());
    assert!(sentence("1-2-3 * * * *").is_none());
    assert!(sentence("*/0 * * * *").is_none());
    assert!(sentence("*/4/5 * * * *").is_none());
    assert!(sentence("*/5,6 * * * *").is_none());
    assert!(sentence("-5 * * * *").is_none());
}

#[test]
fn names_wrap_around() {
    assert_eq!(weekday_name(&0), "Sunday");
    assert_eq!(weekday_name(&7), "Sunday");
    assert_eq!(weekday_name(&3), "Wednesday");
    assert_eq!(month_name(&0), "December");
    assert_eq!(month_name(&12), "December");
    assert_eq!(month_name(&13), "January");
    assert_eq!(sentence("0 0 * 0 0").unwrap(), "At 12:00 AM on Sunday in December.");
}

#[test]
fn minute_shapes_with_hour_shapes() {
    assert_eq!(sentence("0,30 * * * *").unwrap(), "At minute 0 and 30.");
    assert_eq!(sentence("0-10 * * * *").unwrap(), "At every minute from 0 through 10.");
    assert_eq!(
        sentence("0-10 9-17 * * *").unwrap(),
        "At every minute from 0 through 10 past every hour from 9 through 17."
    );
    assert_eq!(sentence("*/5 */2 * * *").unwrap(), "At every 5th minute past every 2nd hour.");
    assert_eq!(sentence("* 14 * * *").unwrap(), "At every minute past 2:00 PM.");
    assert_eq!(sentence("5 1,2 * * *").unwrap(), "At minute 5 past hour 1 and 2.");
    assert_eq!(
        sentence("* 9-17 * * *").unwrap(),
        "At every minute past every hour from 9 through 17."
    );
    assert_eq!(sentence("0,30 9 * * *").unwrap(), "At minute 0 and 30.");
}

#[test]
fn date_clauses() {
    assert_eq!(
        sentence("0 9 * * 1,3,5").unwrap(),
        "At 9:00 AM on Monday, Wednesday, and Friday."
    );
    assert_eq!(
        sentence("0 0 1 1-3 *").unwrap(),
        "At 12:00 AM on day-of-month 1 in every month from January through March."
    );
    assert_eq!(
        sentence("0 12 */10 1,7 6").unwrap(),
        "At 12:00 PM on every 10th day-of-month and on Saturday in January and July."
    );
    assert_eq!(sentence("0 12 * 6 *").unwrap(), "At 12:00 PM in June.");
}

#[test]
fn numbers_read_as_usize_parse() {
    assert_eq!(parse_number("0"), Some(0));
    assert_eq!(parse_number("007"), Some(7));
    assert_eq!(parse_number("+5"), Some(5));
    assert_eq!(parse_number("+"), None);
    assert_eq!(parse_number(""), None);
    assert_eq!(parse_number("1a"), None);
    assert_eq!(parse_number("18446744073709551615"), Some(usize::MAX));
    assert_eq!(parse_number("18446744073709551616"), None);
}

#[test]
fn split_keeps_empty_pieces() {
    assert_eq!(split_on("a,,b", ','), strings(&["a", "", "b"]));
    assert_eq!(split_on("", ','), strings(&[""]));
    assert_eq!(split_on("abc", ','), strings(&["abc"]));
    assert_eq!(split_on(",", ','), strings(&["", ""]));
}

#[test]
fn field_shapes() {
    assert!(matches!(parse_list(&String::from("3,1,3")), Some(ExpValue::List(v)) if v == vec![3, 1, 3]));
    assert!(parse_list(&String::from("5")).is_none());
    assert!(matches!(parse_range(&String::from("14-8")), Some(ExpValue::Range(14, 8))));
    assert!(matches!(parse_sym(&String::from("*")), Some(ExpValue::Symbol(CronSymbol::Wildcard))));
    assert!(matches!(parse_sym(&String::from("42")), Some(ExpValue::Symbol(CronSymbol::Number(42)))));
    assert!(matches!(parse_frac(&String::from("*/15")), Some(ExpValue::Frac(15))));
    assert!(parse_frac(&String::from("5/15")).is_none());
    assert!(matches!(parse_exp_seg(&String::from("1-5")), Some(ExpValue::Range(1, 5))));
    assert!(parse_exp_seg(&String::from("1,2-3")).is_none());
}

#[test]
fn fields_write_back() {
    assert_eq!(ExpValue::List(vec![1, 2, 3]).to_string(), "1,2,3");
    assert_eq!(ExpValue::Range(8, 14).to_string(), "8-14");
    assert_eq!(ExpValue::Frac(4).to_string(), "*/4");
    assert_eq!(ExpValue::Symbol(CronSymbol::Wildcard).to_string(), "*");
    assert_eq!(ExpValue::Symbol(CronSymbol::Number(59)).to_string(), "59");
}

#[test]
fn small_helpers() {
    assert_eq!(decimal(0), "0");
    assert_eq!(decimal(1907), "1907");
    assert_eq!(left_pad_if_not_empty(String::new()), "");
    assert_eq!(left_pad_if_not_empty(String::from("x")), " x");
}
