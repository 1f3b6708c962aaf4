use blooio::pagination::{law_live_cursor_advances, Cursor, Page, Pagination, DEFAULT_PAGE_SIZE};

#[test]
fn cursor_stops_on_short_page() {
    let mut c = Cursor::new(50);
    let page = Page {
        items: vec![1, 2, 3],
        pagination: Some(Pagination {
            limit: Some(50),
            offset: Some(0),
            total: Some(3),
            ..Default::default()
        }),
    };
    let items = c.advance(page);
    assert_eq!(items, vec![1, 2, 3]);
    assert_eq!(c.offset(), 3);
    assert!(c.is_done());
}

#[test]
fn cursor_continues_on_full_page() {
    let mut c = Cursor::new(2);
    let page = Page {
        items: vec![1, 2],
        pagination: Some(Pagination {
            limit: Some(2),
            offset: Some(0),
            total: Some(10),
            ..Default::default()
        }),
    };
    c.advance(page);
    assert_eq!(c.offset(), 2);
    assert!(!c.is_done());
}

#[test]
fn cursor_stops_when_total_reached_even_on_full_page() {
    let mut c = Cursor::new(2);
    let page = Page {
        items: vec![1, 2],
        pagination: Some(Pagination {
            limit: Some(2),
            offset: Some(0),
            total: Some(2),
            ..Default::default()
        }),
    };
    c.advance(page);
    assert!(c.is_done());
}

#[test]
fn cursor_continues_on_full_page_without_pagination() {
    let mut c = Cursor::new(2);
    let page = Page {
        items: vec![1, 2],
        pagination: None,
    };
    c.advance(page);
    assert_eq!(c.offset(), 2);
    assert!(!c.is_done());
}

#[test]
fn cursor_stops_on_short_page_without_pagination() {
    let mut c = Cursor::new(50);
    let page = Page {
        items: vec![1, 2, 3],
        pagination: None,
    };
    c.advance(page);
    assert_eq!(c.offset(), 3);
    assert!(c.is_done());
}

#[test]
fn cursor_stops_on_empty_page() {
    let mut c = Cursor::new(2);
    let page: Page<i32> = Page {
        items: vec![],
        pagination: None,
    };
    let items = c.advance(page);
    assert!(items.is_empty());
    assert_eq!(c.offset(), 0);
    assert!(c.is_done());
}

#[test]
fn cursor_stops_when_has_more_is_false_on_full_page() {
    let mut c = Cursor::new(2);
    let page = Page {
        items: vec![1, 2],
        pagination: Some(Pagination {
            has_more: Some(false),
            ..Default::default()
        }),
    };
    c.advance(page);
    assert!(c.is_done());
}

#[test]
fn cursor_continues_after_short_page_when_has_more_is_true() {
    let mut c = Cursor::new(50);
    let page = Page {
        items: vec![1, 2, 3],
        pagination: Some(Pagination {
            has_more: Some(true),
            ..Default::default()
        }),
    };
    c.advance(page);
    assert_eq!(c.offset(), 3);
    assert!(!c.is_done());
}

#[test]
fn cursor_continues_after_short_page_below_total() {
    let mut c = Cursor::new(50);
    let page = Page {
        items: vec![1, 2, 3],
        pagination: Some(Pagination {
            total: Some(100),
            ..Default::default()
        }),
    };
    c.advance(page);
    assert!(!c.is_done());
    // The next, empty page ends the walk even though the total was not reached.
    let empty: Page<i32> = Page {
        items: vec![],
        pagination: Some(Pagination {
            total: Some(100),
            ..Default::default()
        }),
    };
    c.advance(empty);
    assert_eq!(c.offset(), 3);
    assert!(c.is_done());
}

#[test]
fn cursor_finish_stays_done_and_keeps_offset() {
    let mut c = Cursor::new(DEFAULT_PAGE_SIZE);
    assert_eq!(c.limit(), 50);
    c.advance(Page {
        items: vec![0u8; 50],
        pagination: None,
    });
    assert!(!c.is_done());
    c.finish();
    assert!(c.is_done());
    assert_eq!(c.offset(), 50);
}

#[test]
fn live_cursor_law_on_concrete_values() {
    // A live walk advanced: 2 items from offset 4, page size 2, no metadata.
    let mut c = Cursor::new(2);
    c.advance(Page { items: vec![1, 2], pagination: None });
    c.advance(Page { items: vec![3, 4], pagination: None });
    let before = c.offset();
    c.advance(Page { items: vec![5, 6], pagination: None });
    assert!(!c.is_done());
    assert!(c.offset() > before);
    let _ = law_live_cursor_advances;
}
