use tenantcore::pagination::PaginationMeta;

#[test]
fn exact_division_fills_whole_pages() {
    let m = PaginationMeta::new(1, 10, 100);
    assert_eq!(m.page, 1);
    assert_eq!(m.limit, 10);
    assert_eq!(m.total, 100);
    assert_eq!(m.total_pages, 10);
    assert!(m.has_next);
    assert!(!m.has_prev);
}

#[test]
fn remainder_adds_a_page() {
    let m = PaginationMeta::new(2, 10, 101);
    assert_eq!(m.total_pages, 11);
    assert!(m.has_next);
    assert!(m.has_prev);
}

#[test]
fn last_page_has_no_next() {
    let m = PaginationMeta::new(11, 10, 101);
    assert!(!m.has_next);
    assert!(m.has_prev);
}

#[test]
fn empty_result_has_no_pages() {
    let m = PaginationMeta::new(1, 10, 0);
    assert_eq!(m.total_pages, 0);
    assert!(!m.has_next);
    assert!(!m.has_prev);
}

#[test]
fn single_record_is_one_page() {
    let m = PaginationMeta::new(1, 10, 1);
    assert_eq!(m.total_pages, 1);
    assert!(!m.has_next);
}

#[test]
fn zero_limit_saturates_when_records_exist() {
    let m = PaginationMeta::new(1, 0, 5);
    assert_eq!(m.total_pages, u32::MAX);
    let empty = PaginationMeta::new(1, 0, 0);
    assert_eq!(empty.total_pages, 0);
}
