use bus_factor::paginator::{page_items, plan_pages, requested_page_size, take_first_n};
use bus_factor::{Error, Page, Paginator};

#[test]
fn pages_sum_to_total() {
    for max in 1..=7u32 {
        for total in 1..=40u32 {
            let pages = plan_pages(1, max, total);
            let sum: u32 = pages.iter().map(|p| p.page_size).sum();
            assert_eq!(sum, total);
            assert_eq!(pages.len() as u32, (total + max - 1) / max);
            for (i, p) in pages.iter().enumerate() {
                assert!(p.page_size >= 1 && p.page_size <= max);
                assert_eq!(p.page_no, 1 + i as u32);
            }
        }
    }
}

#[test]
fn pages_of_300_by_100() {
    let pages = plan_pages(1, 100, 300);
    assert_eq!(pages, vec![Page::new(1, 100), Page::new(2, 100), Page::new(3, 100)]);
}

#[test]
fn last_page_is_short() {
    let pages = plan_pages(1, 100, 250);
    assert_eq!(pages, vec![Page::new(1, 100), Page::new(2, 100), Page::new(3, 50)]);
}

#[test]
fn nothing_requested_gives_no_page() {
    assert!(plan_pages(1, 100, 0).is_empty());
}

#[test]
fn paginator_steps() {
    let mut p = Paginator::new(5, 10, 15);
    assert_eq!(p.next_page(), Some(Page::new(5, 10)));
    assert_eq!(p.next_page(), Some(Page::new(6, 5)));
    assert_eq!(p.next_page(), None);
    assert_eq!(p.next_page(), None);
}

#[test]
fn short_page_after_first_is_fetched_whole() {
    assert_eq!(requested_page_size(Page::new(3, 50), 100, 1), 100);
    assert_eq!(requested_page_size(Page::new(1, 50), 100, 1), 50);
    assert_eq!(requested_page_size(Page::new(2, 100), 100, 1), 100);
}

#[test]
fn take_first_n_truncates() {
    assert_eq!(take_first_n(vec![1, 2, 3, 4], 2), vec![1, 2]);
    assert_eq!(take_first_n(vec![1, 2], 5), vec![1, 2]);
    assert_eq!(take_first_n(Vec::<u8>::new(), 0), Vec::<u8>::new());
}

#[test]
fn failed_page_contributes_nothing() {
    assert!(page_items::<u32>(Err(Error::Error("bad".to_string())), 10).is_empty());
    assert_eq!(page_items(Ok(vec![7, 8, 9]), 2), vec![7, 8]);
}

#[test]
fn largest_sizes() {
    assert_eq!(plan_pages(1, u32::MAX, u32::MAX), vec![Page::new(1, u32::MAX)]);
    let mut p = Paginator::new(u32::MAX - 2, 1, 2);
    assert_eq!(p.next_page(), Some(Page::new(u32::MAX - 2, 1)));
    assert_eq!(p.next_page(), Some(Page::new(u32::MAX - 1, 1)));
    assert_eq!(p.next_page(), None);
}
