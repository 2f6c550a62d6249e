use paged_resources::pagination::{
    total_pages, PaginatedResponse, PaginationMeta, PaginationParams, DEFAULT_PAGE,
    DEFAULT_PAGE_SIZE, MAX_PAGE_SIZE, MIN_PAGE_SIZE,
};

fn params(page: Option<u32>, page_size: Option<u32>) -> PaginationParams {
    PaginationParams { page, page_size }
}

#[test]
fn normalize_zero_page_and_zero_size() {
    assert_eq!(params(Some(0), Some(0)).normalize(), (1, 0, 1, 1));
}

#[test]
fn normalize_third_page_of_twenty() {
    assert_eq!(params(Some(3), Some(20)).normalize(), (20, 40, 3, 20));
}

#[test]
fn normalize_clamps_large_page_size() {
    let (limit, offset, page, page_size) = params(None, Some(1000)).normalize();
    assert_eq!(page_size, 100);
    assert_eq!(limit, 100);
    assert_eq!(offset, 0);
    assert_eq!(page, 1);
}

#[test]
fn normalize_defaults() {
    assert_eq!(params(None, None).normalize(), (10, 0, 1, 10));
    assert_eq!(DEFAULT_PAGE, 1);
    assert_eq!(DEFAULT_PAGE_SIZE, 10);
    assert_eq!(MIN_PAGE_SIZE, 1);
    assert_eq!(MAX_PAGE_SIZE, 100);
}

#[test]
fn normalize_page_size_bounds() {
    assert_eq!(params(Some(1), Some(1)).normalize(), (1, 0, 1, 1));
    assert_eq!(params(Some(1), Some(100)).normalize(), (100, 0, 1, 100));
    assert_eq!(params(Some(1), Some(101)).normalize(), (100, 0, 1, 100));
    assert_eq!(params(Some(2), Some(u32::MAX)).normalize(), (100, 100, 2, 100));
}

#[test]
fn normalize_largest_page_does_not_overflow() {
    let (limit, offset, page, page_size) = params(Some(u32::MAX), Some(100)).normalize();
    assert_eq!(limit, 100);
    assert_eq!(offset, 429_496_729_400);
    assert_eq!(page, u32::MAX);
    assert_eq!(page_size, 100);
}

#[test]
fn normalize_offset_is_rows_on_pages_before() {
    for page in 1u32..50 {
        for size in 1u32..=100 {
            let (limit, offset, p, s) = params(Some(page), Some(size)).normalize();
            assert_eq!(p, page);
            assert_eq!(s, size);
            assert_eq!(limit, size as i64);
            assert_eq!(offset, (page as i64 - 1) * size as i64);
        }
    }
}

#[test]
fn total_pages_of_empty_result_is_one() {
    assert_eq!(total_pages(0, 10), 1);
    assert_eq!(total_pages(0, 1), 1);
    assert_eq!(total_pages(0, 100), 1);
    assert_eq!(total_pages(0, 0), 1);
    assert_eq!(total_pages(0, u32::MAX), 1);
}

#[test]
fn total_pages_rounds_up() {
    assert_eq!(total_pages(101, 10), 11);
    assert_eq!(total_pages(100, 10), 10);
    assert_eq!(total_pages(1, 10), 1);
    assert_eq!(total_pages(10, 10), 1);
    assert_eq!(total_pages(11, 10), 2);
    assert_eq!(total_pages(12, 5), 3);
    assert_eq!(total_pages(7, 1), 7);
}

#[test]
fn total_pages_is_least_number_that_holds_the_rows() {
    for count in 1i64..400 {
        for size in 1u32..40 {
            let pages = total_pages(count, size) as i64;
            assert!(pages * size as i64 >= count);
            assert!((pages - 1) * (size as i64) < count);
        }
    }
}

#[test]
fn total_pages_outside_the_usual_range() {
    assert_eq!(total_pages(-1, 10), 0);
    assert_eq!(total_pages(i64::MIN, 10), 0);
    assert_eq!(total_pages(5, 0), u32::MAX);
    assert_eq!(total_pages(i64::MAX, 1), u32::MAX);
    assert_eq!(total_pages(u32::MAX as i64, 1), u32::MAX);
    assert_eq!(total_pages(u32::MAX as i64 + 1, 1), u32::MAX);
    assert_eq!(total_pages(u32::MAX as i64 - 1, 1), u32::MAX - 1);
    assert_eq!(total_pages(i64::MAX, u32::MAX), 2_147_483_649);
}

#[test]
fn paginated_response_carries_rows_and_figures() {
    let response = PaginatedResponse::new(vec![1, 2, 3, 4, 5], 12, 2, 5);
    assert_eq!(response.data, vec![1, 2, 3, 4, 5]);
    assert_eq!(
        response.meta,
        PaginationMeta { total_records: 12, page: 2, page_size: 5, total_pages: 3 }
    );
}

#[test]
fn paginated_response_of_nothing_has_one_page() {
    let response: PaginatedResponse<u8> = PaginatedResponse::new(Vec::new(), 0, 1, 10);
    assert!(response.data.is_empty());
    assert_eq!(response.meta.total_pages, 1);
    assert_eq!(response.meta.total_records, 0);
    assert_eq!(response.meta.page, 1);
    assert_eq!(response.meta.page_size, 10);
}
