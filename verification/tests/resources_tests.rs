use paylio::{PaginatedList, Period, SubscriptionCancel};

#[test]
fn test_has_more_true() {
    let list: PaginatedList<String> = PaginatedList {
        items: vec![],
        total: 30,
        page: 1,
        page_size: 10,
        total_pages: 3,
    };
    assert!(list.has_more());
}

#[test]
fn test_has_more_false_last_page() {
    let list: PaginatedList<String> = PaginatedList {
        items: vec![],
        total: 30,
        page: 3,
        page_size: 10,
        total_pages: 3,
    };
    assert!(!list.has_more());
}

#[test]
fn test_has_more_false_zero_page() {
    let list: PaginatedList<String> = PaginatedList {
        items: vec![],
        total: 0,
        page: 0,
        page_size: 10,
        total_pages: 0,
    };
    assert!(!list.has_more());
}

#[test]
fn test_has_more_false_single_page() {
    let list: PaginatedList<String> = PaginatedList {
        items: vec![],
        total: 5,
        page: 1,
        page_size: 10,
        total_pages: 1,
    };
    assert!(!list.has_more());
}

#[test]
fn test_has_more_page_2_of_5() {
    let list: PaginatedList<String> = PaginatedList {
        items: vec![],
        total: 50,
        page: 2,
        page_size: 10,
        total_pages: 5,
    };
    assert!(list.has_more());
}

#[test]
fn test_has_more_false_negative_page() {
    let list: PaginatedList<u8> = PaginatedList {
        items: vec![1, 2],
        total: 50,
        page: -1,
        page_size: 10,
        total_pages: 5,
    };
    assert!(!list.has_more());
}

#[test]
fn test_has_more_false_past_last_page() {
    let list: PaginatedList<u8> = PaginatedList {
        items: vec![],
        total: 50,
        page: 7,
        page_size: 10,
        total_pages: 5,
    };
    assert!(!list.has_more());
}

#[test]
fn test_resources_compare_by_fields() {
    let a = SubscriptionCancel {
        id: "sub_1".into(),
        object: "subscription_cancel".into(),
        success: true,
        cancel_at_period_end: true,
    };
    let b = a.clone();
    assert_eq!(a, b);
    let p = Period { start: "2026-01-01".into(), end: "2026-02-01".into() };
    assert_eq!(p.clone(), p);
}
