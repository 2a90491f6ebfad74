use project_factory::listing::{filters_for, list_query, page_window, Listing};
use project_factory::pattern::substring_pattern_text;
use project_factory::sql::decimal_text;
use project_factory::{FilterOptions, SqlValue};

fn opts(page: Option<i32>, limit: Option<i32>, name: Option<&str>, email: Option<&str>) -> FilterOptions {
    FilterOptions {
        page,
        limit,
        name: name.map(|s| s.to_string()),
        email: email.map(|s| s.to_string()),
    }
}

#[test]
fn second_page_of_ten_skips_ten_rows() {
    let w = page_window(Some(2), Some(10));
    assert_eq!(w.page, 2);
    assert_eq!(w.limit, 10);
    assert_eq!(w.offset, 10);
}

#[test]
fn zero_or_negative_limit_takes_default() {
    let w = page_window(Some(1), Some(0));
    assert_eq!(w.limit, 10);
    assert_eq!(w.offset, 0);
    let w = page_window(Some(3), Some(-5));
    assert_eq!(w.limit, 10);
    assert_eq!(w.offset, 20);
}

#[test]
fn zero_or_negative_page_takes_first_page() {
    let w = page_window(Some(0), Some(25));
    assert_eq!(w.page, 1);
    assert_eq!(w.offset, 0);
    let w = page_window(Some(-4), None);
    assert_eq!(w.limit, 10);
    assert_eq!(w.offset, 0);
}

#[test]
fn largest_page_and_limit_do_not_overflow() {
    let w = page_window(Some(i32::MAX), Some(i32::MAX));
    assert_eq!(w.limit, i32::MAX as i64);
    assert_eq!(w.offset, (i32::MAX as i64 - 1) * i32::MAX as i64);
}

#[test]
fn unfiltered_user_listing() {
    let s = list_query(Listing::Users, &opts(None, None, None, None));
    assert_eq!(s.sql, "SELECT * FROM users ORDER BY id LIMIT $1 OFFSET $2");
    assert_eq!(s.args, vec![SqlValue::Int(10), SqlValue::Int(0)]);
}

#[test]
fn name_filter_is_bound_as_substring_pattern() {
    let s = list_query(Listing::Users, &opts(Some(1), Some(10), Some("ali"), None));
    assert_eq!(s.sql, "SELECT * FROM users WHERE name ILIKE $1 ORDER BY id LIMIT $2 OFFSET $3");
    assert_eq!(
        s.args,
        vec![SqlValue::Text("%ali%".to_string()), SqlValue::Int(10), SqlValue::Int(0)]
    );
    assert!(!s.sql.contains("ali"));
}

#[test]
fn two_filters_are_joined_with_and() {
    let s = list_query(Listing::Users, &opts(Some(2), Some(5), Some("bo"), Some("example.org")));
    assert_eq!(
        s.sql,
        "SELECT * FROM users WHERE name ILIKE $1 AND email ILIKE $2 ORDER BY id LIMIT $3 OFFSET $4"
    );
    assert_eq!(
        s.args,
        vec![
            SqlValue::Text("%bo%".to_string()),
            SqlValue::Text("%example.org%".to_string()),
            SqlValue::Int(5),
            SqlValue::Int(5),
        ]
    );
}

#[test]
fn email_filter_alone_takes_first_placeholder() {
    let s = list_query(Listing::Users, &opts(None, None, None, Some("acme")));
    assert_eq!(s.sql, "SELECT * FROM users WHERE email ILIKE $1 ORDER BY id LIMIT $2 OFFSET $3");
}

#[test]
fn other_tables_ignore_filters() {
    let o = opts(Some(2), Some(10), Some("x"), Some("y"));
    let t = list_query(Listing::Teams, &o);
    assert_eq!(t.sql, "SELECT * FROM teams ORDER BY id LIMIT $1 OFFSET $2");
    assert_eq!(t.args, vec![SqlValue::Int(10), SqlValue::Int(10)]);
    let p = list_query(Listing::Projects, &o);
    assert_eq!(p.sql, "SELECT * FROM projects ORDER BY id LIMIT $1 OFFSET $2");
    let w = list_query(Listing::WorkItems, &o);
    assert_eq!(w.sql, "SELECT * FROM work_items ORDER BY id LIMIT $1 OFFSET $2");
    assert!(filters_for(Listing::Teams, &o).is_empty());
}

#[test]
fn wildcards_in_filter_values_are_escaped() {
    assert_eq!(substring_pattern_text("50%_off"), "%50\\%\\_off%");
    assert_eq!(substring_pattern_text("a\\b"), "%a\\\\b%");
    assert_eq!(substring_pattern_text(""), "%%");
    assert_eq!(substring_pattern_text("Zoë"), "%Zoë%");
}

#[test]
fn injected_text_stays_out_of_the_statement() {
    let s = list_query(Listing::Users, &opts(None, None, Some("x' OR '1'='1"), None));
    assert_eq!(s.sql, "SELECT * FROM users WHERE name ILIKE $1 ORDER BY id LIMIT $2 OFFSET $3");
    assert_eq!(s.args[0], SqlValue::Text("%x' OR '1'='1%".to_string()));
}

#[test]
fn repeated_listing_gives_identical_statement() {
    let a = list_query(Listing::Users, &opts(Some(1), Some(10), None, None));
    let b = list_query(Listing::Users, &opts(Some(1), Some(10), None, None));
    assert_eq!(a, b);
    assert!(a.sql.contains("ORDER BY id"));
}

#[test]
fn placeholders_are_written_in_decimal() {
    assert_eq!(decimal_text(0), "0");
    assert_eq!(decimal_text(7), "7");
    assert_eq!(decimal_text(10), "10");
    assert_eq!(decimal_text(1234), "1234");
    assert_eq!(decimal_text(u64::MAX), u64::MAX.to_string());
}
