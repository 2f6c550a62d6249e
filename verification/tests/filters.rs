use paged_resources::filters::{
    LocationFilter, LocationSearchQuery, OrderFilter, OrderSearchQuery,
};
use paged_resources::pagination::PaginationParams;

fn text(s: &str) -> String {
    s.to_string()
}

#[test]
fn location_query_hands_pagination_on_as_given() {
    let query = LocationSearchQuery { page: Some(0), page_size: Some(500), city: None, state: None };
    assert_eq!(query.pagination(), PaginationParams { page: Some(0), page_size: Some(500) });
    let query = LocationSearchQuery { page: None, page_size: None, city: None, state: None };
    assert_eq!(query.pagination(), PaginationParams { page: None, page_size: None });
}

#[test]
fn location_query_filter_keeps_given_fields() {
    let query = LocationSearchQuery {
        page: None,
        page_size: None,
        city: Some(text("sao paulo")),
        state: Some(text("SP")),
    };
    assert_eq!(
        query.filter(),
        LocationFilter { city: Some(text("sao paulo")), state: Some(text("SP")) }
    );
}

#[test]
fn location_query_filter_absent_fields_are_unset() {
    let query = LocationSearchQuery { page: Some(2), page_size: Some(5), city: None, state: None };
    assert_eq!(query.filter(), LocationFilter { city: None, state: None });
    assert_eq!(query.filter(), LocationFilter::default());
}

#[test]
fn location_query_filter_blank_fields_are_unset() {
    let query = LocationSearchQuery {
        page: None,
        page_size: None,
        city: Some(String::new()),
        state: Some(text("RJ")),
    };
    assert_eq!(query.filter(), LocationFilter { city: None, state: Some(text("RJ")) });
    let query = LocationSearchQuery {
        page: None,
        page_size: None,
        city: Some(text(" ")),
        state: Some(String::new()),
    };
    assert_eq!(query.filter(), LocationFilter { city: Some(text(" ")), state: None });
}

#[test]
fn unset_location_filter_matches_everything() {
    let filter = LocationFilter::default();
    assert!(filter.matches(&text("curitiba"), &text("PR")));
    assert!(filter.matches(&String::new(), &String::new()));
}

#[test]
fn location_filter_constraints_are_joined_by_and() {
    let filter = LocationFilter { city: Some(text("curitiba")), state: Some(text("PR")) };
    assert!(filter.matches(&text("curitiba"), &text("PR")));
    assert!(!filter.matches(&text("curitiba"), &text("SP")));
    assert!(!filter.matches(&text("londrina"), &text("PR")));
    assert!(!filter.matches(&text("Curitiba"), &text("PR")));
    let only_state = LocationFilter { city: None, state: Some(text("PR")) };
    assert!(only_state.matches(&text("londrina"), &text("PR")));
    assert!(!only_state.matches(&text("londrina"), &text("SP")));
    let only_city = LocationFilter { city: Some(text("londrina")), state: None };
    assert!(only_city.matches(&text("londrina"), &text("SP")));
    assert!(!only_city.matches(&text("curitiba"), &text("PR")));
}

#[test]
fn location_filter_clone_is_equal() {
    let filter = LocationFilter { city: Some(text("curitiba")), state: None };
    assert_eq!(filter.clone(), filter);
}

#[test]
fn order_query_pagination_and_filter() {
    let query = OrderSearchQuery {
        page: Some(4),
        page_size: None,
        order_status: Some(text("delivered")),
    };
    assert_eq!(query.pagination(), PaginationParams { page: Some(4), page_size: None });
    assert_eq!(query.filter(), OrderFilter { order_status: Some(text("delivered")) });
    let unset = OrderSearchQuery { page: None, page_size: None, order_status: None };
    assert_eq!(unset.filter(), OrderFilter::default());
    let blank = OrderSearchQuery { page: None, page_size: None, order_status: Some(String::new()) };
    assert_eq!(blank.filter(), OrderFilter { order_status: None });
}

#[test]
fn order_filter_matches() {
    let filter = OrderFilter { order_status: Some(text("shipped")) };
    assert!(filter.matches(&text("shipped")));
    assert!(!filter.matches(&text("delivered")));
    assert!(OrderFilter::default().matches(&text("anything")));
    assert_eq!(filter.clone(), filter);
}
