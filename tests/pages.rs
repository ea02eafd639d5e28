use game_library::{page_count, page_index, Page};

#[test]
fn pages_round_up() {
    assert_eq!(page_count(10, 3), 4);
    assert_eq!(page_count(9, 3), 3);
    assert_eq!(page_count(1, 10), 1);
    assert_eq!(page_count(0, 5), 0);
}

#[test]
fn no_pages_without_positive_size() {
    assert_eq!(page_count(10, 0), 0);
    assert_eq!(page_count(10, -4), 0);
}

#[test]
fn extreme_totals_saturate() {
    assert_eq!(page_count(i64::MAX, 1), i32::MAX);
    assert_eq!(page_count(-5, 2), -2);
    assert_eq!(page_count(i64::MIN, 1), i32::MIN);
}

#[test]
fn page_counts_from_total_not_content() {
    let p = Page::new(vec![1, 2], 3, 2, 11);
    assert_eq!(p.content, vec![1, 2]);
    assert_eq!(p.page, 3);
    assert_eq!(p.size, 2);
    assert_eq!(p.total_elements, 11);
    assert_eq!(p.total_pages, 6);
}

#[test]
fn page_index_rounds_toward_zero() {
    assert_eq!(page_index(20, 10), 2);
    assert_eq!(page_index(25, 10), 2);
    assert_eq!(page_index(0, 10), 0);
    assert_eq!(page_index(-25, 10), -2);
    assert_eq!(page_index(25, -10), -2);
    assert_eq!(page_index(-25, -10), 2);
    assert_eq!(page_index(i32::MIN, 1), i32::MIN);
    assert_eq!(page_index(i32::MIN, 2), -1073741824);
}
