use todos::random::{push_decimal, random_fragment, random_in_range, random_page, to_decimal};
use todos::status::Status;

#[test]
fn an_empty_range_fails() {
    assert_eq!(random_in_range(5, 5), None);
    assert_eq!(random_page(5, 5), Err(Status::InternalServerError));
    assert_eq!(random_page(5, 5).unwrap_err().code(), 500);
}

#[test]
fn a_reversed_range_fails() {
    assert_eq!(random_in_range(6, 5), None);
    assert_eq!(random_page(6, 5), Err(Status::InternalServerError));
    assert_eq!(random_in_range(u64::MAX, 0), None);
}

#[test]
fn a_range_of_one_value_always_gives_it() {
    for _ in 0..200 {
        assert_eq!(random_in_range(1, 2), Some(1));
        let page = random_page(1, 2).unwrap();
        assert_eq!(page, "<h1>Random Number: 1</h1>");
        assert!(page.contains("1"));
    }
}

#[test]
fn a_draw_lies_in_the_range() {
    let mut seen = [false; 10];
    for _ in 0..2000 {
        let n = random_in_range(10, 20).unwrap();
        assert!(10 <= n && n < 20);
        seen[(n - 10) as usize] = true;
    }
    // 2000 draws from ten values: each one comes up
    assert!(seen.iter().all(|hit| *hit));
}

#[test]
fn a_draw_from_the_top_of_the_range_of_u64() {
    for _ in 0..50 {
        assert_eq!(random_in_range(u64::MAX - 1, u64::MAX), Some(u64::MAX - 1));
        let n = random_in_range(0, u64::MAX).unwrap();
        assert!(n < u64::MAX);
    }
}

#[test]
fn a_page_shows_a_number_of_the_range() {
    for _ in 0..200 {
        let page = random_page(98, 102).unwrap();
        let shown: Vec<String> = (98..102u64).map(random_fragment).collect();
        assert!(shown.contains(&page));
    }
}

#[test]
fn numerals_are_decimal_without_leading_zeros() {
    assert_eq!(to_decimal(0), "0");
    assert_eq!(to_decimal(7), "7");
    assert_eq!(to_decimal(9), "9");
    assert_eq!(to_decimal(10), "10");
    assert_eq!(to_decimal(99), "99");
    assert_eq!(to_decimal(100), "100");
    assert_eq!(to_decimal(1234567890), "1234567890");
    assert_eq!(to_decimal(u64::MAX), "18446744073709551615");
}

#[test]
fn numerals_agree_with_the_standard_library() {
    let mut n: u64 = 1;
    for _ in 0..64 {
        assert_eq!(to_decimal(n), n.to_string());
        assert_eq!(to_decimal(n - 1), (n - 1).to_string());
        n = n.wrapping_mul(3).wrapping_add(7);
    }
}

#[test]
fn a_numeral_is_appended_to_what_is_there() {
    let mut out = String::from("n = ");
    push_decimal(&mut out, 405);
    assert_eq!(out, "n = 405");
    push_decimal(&mut out, 0);
    assert_eq!(out, "n = 4050");
}

#[test]
fn the_fragment_wraps_the_numeral() {
    assert_eq!(random_fragment(1), "<h1>Random Number: 1</h1>");
    assert_eq!(random_fragment(0), "<h1>Random Number: 0</h1>");
    assert_eq!(random_fragment(4711), "<h1>Random Number: 4711</h1>");
    assert_eq!(random_fragment(u64::MAX), "<h1>Random Number: 18446744073709551615</h1>");
}
