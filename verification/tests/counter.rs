use hero_api::{Method, RequestCounter, RequestTally};

#[test]
fn new_counter_is_at_zero() {
    let counter = RequestCounter::new();
    assert_eq!(counter.snapshot(), RequestTally { get_count: 0, post_count: 0 });
    assert_eq!(
        RequestCounter::default().snapshot(),
        RequestTally { get_count: 0, post_count: 0 }
    );
}

#[test]
fn gets_and_posts_are_counted_and_others_ignored() {
    let mut counter = RequestCounter::new();
    for _ in 0..3 {
        counter.record(Method::Get);
    }
    counter.record(Method::Post);
    for _ in 0..5 {
        counter.record(Method::Delete);
    }
    assert_eq!(counter.snapshot(), RequestTally { get_count: 3, post_count: 1 });
}

#[test]
fn counts_follow_any_order_of_requests() {
    let mut counter = RequestCounter::new();
    let methods = [
        Method::Post,
        Method::Get,
        Method::Put,
        Method::Get,
        Method::Head,
        Method::Post,
        Method::Get,
        Method::Patch,
        Method::Options,
        Method::Trace,
        Method::Connect,
        Method::Delete,
    ];
    for method in methods {
        counter.record(method);
    }
    assert_eq!(counter.snapshot(), RequestTally { get_count: 3, post_count: 2 });
}

#[test]
fn many_gets_are_all_counted() {
    let mut counter = RequestCounter::new();
    counter.record(Method::Post);
    counter.record(Method::Get);
    let before = counter.snapshot();
    for _ in 0..1000 {
        counter.record(Method::Get);
    }
    let after = counter.snapshot();
    assert_eq!(after.get_count, before.get_count + 1000);
    assert_eq!(after.post_count, before.post_count);
}

#[test]
fn snapshot_does_not_change_the_counter() {
    let mut counter = RequestCounter::new();
    counter.record(Method::Get);
    assert_eq!(counter.snapshot(), counter.snapshot());
    assert_eq!(counter.snapshot().get_count, 1);
}

#[test]
fn report_shows_both_counts() {
    let mut counter = RequestCounter::new();
    assert_eq!(hero_api::counts(&counter), "Get: 0\nPost: 0");
    for _ in 0..12 {
        counter.record(Method::Get);
    }
    counter.record(Method::Post);
    assert_eq!(hero_api::counts(&counter), "Get: 12\nPost: 1");
}
