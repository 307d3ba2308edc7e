use henflow::counter::AggregateCounter;
use henflow::cursor::{PageCursor, PageRequest};
use henflow::limiter::Limiter;

#[test]
fn counter_adds_and_reads() {
    let mut counter = AggregateCounter::new();
    assert_eq!(counter.total(), 0);
    assert_eq!(counter.add(100), 100);
    assert_eq!(counter.add(0), 100);
    assert_eq!(counter.add(250), 350);
    assert_eq!(counter.total(), 350);
}

#[test]
fn counter_knows_its_room() {
    let mut counter = AggregateCounter::new();
    assert!(counter.has_room_for(u64::MAX));
    counter.add(1);
    assert!(!counter.has_room_for(u64::MAX));
    assert!(counter.has_room_for(u64::MAX - 1));
    assert_eq!(counter.add(u64::MAX - 1), u64::MAX);
    assert!(counter.has_room_for(0));
    assert!(!counter.has_room_for(1));
}

#[test]
fn limiter_grants_up_to_its_capacity() {
    let mut limiter = Limiter::new(2);
    assert_eq!(limiter.capacity(), 2);
    assert_eq!(limiter.outstanding(), 0);
    assert!(limiter.has_free_permit());
    assert!(limiter.try_acquire());
    assert!(limiter.try_acquire());
    assert!(!limiter.has_free_permit());
    assert!(!limiter.try_acquire());
    assert_eq!(limiter.outstanding(), 2);
    limiter.release();
    assert_eq!(limiter.outstanding(), 1);
    assert!(limiter.try_acquire());
    assert!(!limiter.try_acquire());
    assert_eq!(limiter.outstanding(), 2);
}

#[test]
fn limiter_without_capacity_grants_nothing() {
    let mut limiter = Limiter::new(0);
    assert!(!limiter.has_free_permit());
    assert!(!limiter.try_acquire());
    assert_eq!(limiter.outstanding(), 0);
}

/// Pages through a service that holds `total` records, and returns the
/// number of requests made and of records received.
fn page_through(total: usize, page_size: usize) -> (usize, usize) {
    let mut cursor = PageCursor::new(page_size);
    let mut requests = 0;
    let mut received = 0;
    while let Some(PageRequest { offset, limit }) = cursor.next_request() {
        assert_eq!(offset, received);
        assert_eq!(limit, page_size);
        requests += 1;
        let returned = std::cmp::min(limit, total.saturating_sub(offset));
        received += returned;
        assert!(cursor.can_advance(returned));
        cursor.advance(returned);
        assert!(requests <= total + 1);
    }
    assert!(cursor.is_exhausted());
    assert_eq!(cursor.offset(), received);
    (requests, received)
}

#[test]
fn a_short_last_page_ends_the_discovery() {
    assert_eq!(page_through(25, 10), (3, 25));
    assert_eq!(page_through(1, 10), (1, 1));
    assert_eq!(page_through(9, 10), (1, 9));
    assert_eq!(page_through(11, 10), (2, 11));
    assert_eq!(page_through(3, 1000), (1, 3));
}

#[test]
fn a_full_last_page_costs_one_more_request() {
    assert_eq!(page_through(20, 10), (3, 20));
    assert_eq!(page_through(10, 10), (2, 10));
    assert_eq!(page_through(0, 10), (1, 0));
    assert_eq!(page_through(5, 1), (6, 5));
}

#[test]
fn requests_are_full_pages_rounded_up() {
    for page_size in 1..12usize {
        for total in 0..60usize {
            let rounded_up = (total + page_size - 1) / page_size;
            let expected = if total % page_size == 0 { rounded_up + 1 } else { rounded_up };
            assert_eq!(page_through(total, page_size), (expected, total));
        }
    }
}

#[test]
fn cursor_starts_at_the_first_record() {
    let cursor = PageCursor::new(10000);
    assert_eq!(cursor.offset(), 0);
    assert_eq!(cursor.page_size(), 10000);
    assert!(!cursor.is_exhausted());
    assert_eq!(cursor.next_request(), Some(PageRequest { offset: 0, limit: 10000 }));
}

#[test]
fn cursor_knows_its_room() {
    let mut cursor = PageCursor::new(10);
    cursor.advance(10);
    assert!(cursor.can_advance(usize::MAX - 10));
    assert!(!cursor.can_advance(usize::MAX - 9));
}

#[test]
fn a_page_longer_than_asked_for_does_not_end_the_discovery() {
    let mut cursor = PageCursor::new(10);
    cursor.advance(12);
    assert!(!cursor.is_exhausted());
    assert_eq!(cursor.next_request(), Some(PageRequest { offset: 12, limit: 10 }));
}
