use auth_ms::pagination::{List, RequestPagination, ResponsePagination};

#[test]
fn default_pagination_is_first_page_of_ten() {
    let p = ResponsePagination::default();
    assert_eq!(p, ResponsePagination { size: 10, page: 1 });
}

#[test]
fn query_defaults() {
    assert_eq!(ResponsePagination::from_query(None, None), ResponsePagination { size: 10, page: 1 });
    assert_eq!(ResponsePagination::from_query(Some(5), Some(3)), ResponsePagination { size: 5, page: 3 });
    assert_eq!(ResponsePagination::from_query(Some(0), None), ResponsePagination { size: 0, page: 1 });
}

#[test]
fn offsets() {
    let p = ResponsePagination { size: 10, page: 3 };
    assert!(p.offset_fits());
    assert_eq!(p.offset(), 20);
    assert_eq!(ResponsePagination { size: 10, page: 1 }.offset(), 0);
    assert_eq!(ResponsePagination { size: 10, page: 0 }.offset(), 0);
    assert_eq!(ResponsePagination { size: 10, page: -7 }.offset(), 0);
    assert_eq!(ResponsePagination { size: -4, page: 2 }.offset(), -4);
}

#[test]
fn offset_overflow_is_detected() {
    assert!(!ResponsePagination { size: i64::MAX, page: 3 }.offset_fits());
    assert!(ResponsePagination { size: i64::MAX, page: 2 }.offset_fits());
    assert!(!ResponsePagination { size: i64::MIN, page: i64::MAX }.offset_fits());
    assert!(ResponsePagination { size: i64::MIN, page: 2 }.offset_fits());
    assert_eq!(ResponsePagination { size: i64::MIN, page: 2 }.offset(), i64::MIN);
}

#[test]
fn page_counts_round_up() {
    assert_eq!(RequestPagination::for_count(25, 10), RequestPagination { total_count: 25, total_pages: 3 });
    assert_eq!(RequestPagination::for_count(20, 10).total_pages, 2);
    assert_eq!(RequestPagination::for_count(0, 10).total_pages, 0);
    assert_eq!(RequestPagination::for_count(1, 10).total_pages, 1);
    assert_eq!(RequestPagination::for_count(7, 1).total_pages, 7);
    assert_eq!(RequestPagination::for_count(i64::MAX, 2).total_pages, i64::MAX / 2 + 1);
    // the one count beyond the 64-bit range saturates, as a float cast does
    assert_eq!(RequestPagination::for_count(i64::MIN, -1).total_pages, i64::MAX);
    assert_eq!(RequestPagination::for_count(i64::MIN, -1).total_pages, (i64::MIN as f64 / -1f64).ceil() as i64);
}

#[test]
fn zero_size_has_no_pages() {
    assert_eq!(RequestPagination::for_count(5, 0), RequestPagination { total_count: 5, total_pages: 0 });
}

#[test]
fn negative_size_rounds_toward_zero_from_below() {
    // ceil(10 / -3) = ceil(-3.33) = -3
    assert_eq!(RequestPagination::for_count(10, -3).total_pages, -3);
    assert_eq!(RequestPagination::for_count(9, -3).total_pages, -3);
    assert_eq!(RequestPagination::for_count(0, -3).total_pages, 0);
    assert_eq!(RequestPagination::for_count(5, i64::MIN).total_pages, 0);
}

#[test]
fn page_matches_float_formula_on_small_values() {
    for total in -60i64..60 {
        for size in -12i64..12 {
            let expected = if size == 0 { 0 } else { (total as f64 / size as f64).ceil() as i64 };
            assert_eq!(RequestPagination::for_count(total, size).total_pages, expected, "{total} {size}");
        }
    }
}

#[test]
fn extreme_counts() {
    assert_eq!(RequestPagination::for_count(i64::MIN, 1).total_pages, i64::MIN);
    assert_eq!(RequestPagination::for_count(i64::MIN, -2).total_pages, 1i64 << 62);
    assert_eq!(RequestPagination::for_count(i64::MIN + 1, -1).total_pages, i64::MAX);
    assert_eq!(RequestPagination::for_count(i64::MAX, i64::MIN).total_pages, 0);
    assert_eq!(RequestPagination::for_count(-7, 2).total_pages, -3);
    assert_eq!(RequestPagination::for_count(-7, -2).total_pages, 4);
}

#[test]
fn list_page() {
    let l = List::page_of(11, 5, vec![1, 2, 3, 4, 5]);
    assert_eq!(l.pagination, RequestPagination { total_count: 11, total_pages: 3 });
    assert_eq!(l.items, vec![1, 2, 3, 4, 5]);
}

#[test]
fn consecutive_pages_are_adjacent() {
    let a = ResponsePagination { size: 7, page: 4 };
    let b = ResponsePagination { size: 7, page: 5 };
    assert_eq!(b.offset(), a.offset() + 7);
}
