use proxy::links::{HeaderIds, PostIds};
use proxy::refresh::{RefreshHandler, Refresher, Teardown};

fn image_teardown(post: usize, refresh: usize) -> Teardown {
    Teardown::Image(PostIds { post, refresh })
}

fn batch_teardown() -> Teardown {
    Teardown::Batch(HeaderIds { search_map: 2, preview: 3, refresh: 4 })
}

#[test]
fn individual_pulse_resets_only_its_timer() {
    let mut h = RefreshHandler::new();
    let first = h.attach_with_local(10, image_teardown(0, 1));
    let second = h.attach_with_local(10, image_teardown(5, 6));
    assert!(matches!(second, Refresher::One(1)));

    assert!(h.elapse(0, 6).is_none());
    assert!(h.elapse(1, 6).is_none());

    first.refresh(&mut h);

    // The pulsed timer is back to its full duration; its sibling still
    // has only four units left.
    assert!(h.elapse(0, 6).is_none());
    let expired = h.elapse(1, 6);
    assert_eq!(expired, Some(image_teardown(5, 6)));
}

#[test]
fn group_pulse_resets_every_timer() {
    let mut h = RefreshHandler::new();
    h.attach_with_local(10, image_teardown(0, 1));
    h.attach(10, batch_teardown());
    let group = h.into_refresher();
    assert!(matches!(group, Refresher::Many));

    assert!(h.elapse(0, 9).is_none());
    assert!(h.elapse(1, 9).is_none());

    group.refresh(&mut h);

    assert!(h.elapse(0, 9).is_none());
    assert!(h.elapse(1, 9).is_none());
}

#[test]
fn expiry_hands_teardown_back_exactly_once() {
    let mut h = RefreshHandler::new();
    h.attach(600, batch_teardown());
    assert_eq!(h.elapse(0, 600), Some(batch_teardown()));
    assert_eq!(h.elapse(0, u64::MAX), None);
}

#[test]
fn refreshing_expired_timer_is_noop() {
    let mut h = RefreshHandler::new();
    let one = h.attach_with_local(10, image_teardown(0, 1));
    assert_eq!(h.elapse(0, 10), Some(image_teardown(0, 1)));
    assert!(!h.timers[0].alive);

    one.refresh(&mut h);
    h.into_refresher().refresh(&mut h);

    // Still expired: no amount of elapsed time yields another teardown.
    assert!(!h.timers[0].alive);
    assert_eq!(h.elapse(0, u64::MAX), None);
}

#[test]
fn stray_individual_refresher_is_noop() {
    let mut h = RefreshHandler::new();
    let stray = Refresher::One(7);
    stray.refresh(&mut h);
    assert_eq!(h.timers.len(), 0);
}
