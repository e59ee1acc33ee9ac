use proxy::api::{File, Post, Preview, Sample, Score};
use proxy::image::Image;
use proxy::links::{setup_links, DriveError, Link, LinkMap};
use proxy::promise::UsageError;

fn post(id: u64) -> Post {
    Post {
        id,
        file: File {
            width: 800,
            height: 1600,
            ext: String::from("png"),
            size: 123456,
            md5: String::from("0123456789abcdef0123456789abcdef"),
            url: String::from("https://example.test/full.png"),
        },
        preview: Preview {
            width: 50,
            height: 75,
            url: String::from("https://example.test/preview.png"),
        },
        sample: Sample {
            has: true,
            height: 200,
            width: 100,
            url: String::from("https://example.test/sample.png"),
        },
        score: Score { up: 10, down: -2 },
        rating: String::from("s"),
    }
}

#[test]
fn allocate_scans_from_zero() {
    let map = LinkMap::new();
    assert_eq!(map.allocate(4), vec![0, 1, 2, 3]);
    assert_eq!(map.allocate(0), Vec::<usize>::new());
}

#[test]
fn batch_setup_registers_all_entries() {
    let mut map = LinkMap::new();
    let posts = vec![post(42), post(43)];
    let batch = setup_links(&mut map, &posts);

    // Two posts: 2 * 2 + 3 = 7 fresh entries, ids 0..6 in allocation order.
    assert_eq!(map.len(), 7);
    assert_eq!(batch.post_ids.len(), 2);
    assert_eq!(batch.post_ids[0].post, 0);
    assert_eq!(batch.post_ids[0].refresh, 1);
    assert_eq!(batch.post_ids[1].post, 2);
    assert_eq!(batch.post_ids[1].refresh, 3);
    assert_eq!(batch.header_ids.search_map, 4);
    assert_eq!(batch.header_ids.preview, 5);
    assert_eq!(batch.header_ids.refresh, 6);

    assert!(matches!(map.get(0), Some(Link::Image(_))));
    assert!(matches!(map.get(1), Some(Link::RefreshImage(_))));
    assert!(matches!(map.get(2), Some(Link::Image(_))));
    assert!(matches!(map.get(3), Some(Link::RefreshImage(_))));
    match map.get(4) {
        Some(Link::SearchMap(blob)) => assert_eq!(blob, &batch.search_map),
        other => panic!("expected the blob entry, got {}", other.is_some()),
    }
    assert!(matches!(map.get(5), Some(Link::Previews(_))));
    assert!(matches!(map.get(6), Some(Link::RefreshSearch(_))));
    assert!(map.get(7).is_none());

    assert_eq!(
        batch.search_map,
        "600000,4,5,6\n0,42,100,200,50,75,10,-2,s,png,1,1200000\n2,43,100,200,50,75,10,-2,s,png,3,1200000"
    );

    // One image timer per post, then the batch timer.
    assert_eq!(batch.handler.timers.len(), 3);
    assert_eq!(batch.handler.timers[0].duration, 1200);
    assert_eq!(batch.handler.timers[1].duration, 1200);
    assert_eq!(batch.handler.timers[2].duration, 600);
}

#[test]
fn two_batch_setups_share_no_id() {
    let mut map = LinkMap::new();
    let first = setup_links(&mut map, &vec![post(1), post(2)]);
    let second = setup_links(&mut map, &vec![post(3)]);
    assert_eq!(map.len(), 12);

    let mut first_ids: Vec<usize> = Vec::new();
    for ids in &first.post_ids {
        first_ids.push(ids.post);
        first_ids.push(ids.refresh);
    }
    first_ids.push(first.header_ids.search_map);
    first_ids.push(first.header_ids.preview);
    first_ids.push(first.header_ids.refresh);

    let mut second_ids: Vec<usize> = Vec::new();
    for ids in &second.post_ids {
        second_ids.push(ids.post);
        second_ids.push(ids.refresh);
    }
    second_ids.push(second.header_ids.search_map);
    second_ids.push(second.header_ids.preview);
    second_ids.push(second.header_ids.refresh);

    for a in &first_ids {
        for b in &second_ids {
            assert_ne!(a, b);
        }
    }
}

#[test]
fn lookup_before_expiry_succeeds_and_after_misses() {
    let mut map = LinkMap::new();
    let batch = setup_links(&mut map, &vec![post(42)]);
    let mut handler = batch.handler;

    // ids: image (0, 1), header (2, 3, 4)
    assert!(map.get(0).is_some());
    assert!(map.get(1).is_some());

    // Just before the image's time-to-live runs out, the entries live on.
    assert!(handler.elapse(0, 1199).is_none());
    assert!(map.get(0).is_some());

    // The last time unit expires the timer; applying its teardown removes
    // exactly the image's two entries.
    let teardown = handler.elapse(0, 1).expect("the image timer must expire");
    map.apply_teardown(teardown);
    assert!(map.get(0).is_none());
    assert!(map.get(1).is_none());
    assert!(map.get(2).is_some());
    assert!(map.get(3).is_some());
    assert!(map.get(4).is_some());

    // The batch timer tears the header entries down the same way.
    let teardown = handler.elapse(1, 600).expect("the batch timer must expire");
    map.apply_teardown(teardown);
    assert_eq!(map.len(), 0);
    assert!(map.get(2).is_none());
    assert!(map.get(3).is_none());
    assert!(map.get(4).is_none());
}

#[test]
fn expired_ids_are_recycled() {
    let mut map = LinkMap::new();
    let batch = setup_links(&mut map, &vec![post(42)]);
    let mut handler = batch.handler;

    let teardown = handler.elapse(0, 1200).expect("the image timer must expire");
    map.apply_teardown(teardown);

    // Ids 0 and 1 are free again and the allocator hands them out first.
    assert_eq!(map.allocate(3), vec![0, 1, 5]);
}

#[test]
fn refreshing_expired_resource_does_not_resurrect_it() {
    let mut map = LinkMap::new();
    let batch = setup_links(&mut map, &vec![post(42)]);
    let mut handler = batch.handler;

    let refresher = match map.get(1) {
        Some(Link::RefreshImage(r)) => *r,
        _ => panic!("expected the image's refresher"),
    };

    let teardown = handler.elapse(0, 1200).expect("the image timer must expire");
    map.apply_teardown(teardown);
    assert!(map.get(0).is_none());

    // Pulsing the dead resource's refresher neither errors nor brings the
    // entry back.
    refresher.refresh(&mut handler);
    assert!(map.get(0).is_none());
    assert!(handler.elapse(0, u64::MAX).is_none());
}

#[test]
fn driving_a_sample_image_through_the_registry() {
    let mut map = LinkMap::new();
    setup_links(&mut map, &vec![post(42)]);

    // The first reader claims the computation; a second claim in flight is
    // a usage error.
    assert!(map.start_image(0).is_ok());
    assert!(matches!(
        map.start_image(0),
        Err(DriveError::Usage(UsageError::AlreadyRunning))
    ));

    let img = Image::new(vec![1, 2, 3], String::from("image/png"));
    assert!(map.finish_image(0, Some(img)));

    match map.get(0) {
        Some(Link::Image(lazy)) => {
            let value = lazy.get().expect("the image is memoized now");
            let stored = value.as_ref().expect("the fetch succeeded");
            assert_eq!(stored.data, vec![1, 2, 3]);
            assert_eq!(stored.mime_type, "image/png");
        },
        _ => panic!("expected the image entry"),
    }

    assert!(matches!(
        map.start_image(0),
        Err(DriveError::Usage(UsageError::AlreadyDone))
    ));
    assert!(matches!(map.start_image(99), Err(DriveError::LookupMiss)));
    assert!(matches!(map.start_image(2), Err(DriveError::WrongKind)));
}

#[test]
fn late_image_result_is_discarded() {
    let mut map = LinkMap::new();
    let batch = setup_links(&mut map, &vec![post(42)]);
    let mut handler = batch.handler;

    assert!(map.start_image(0).is_ok());

    // The entry expires while the fetch is still in flight; the late
    // result is dropped without touching the registry.
    let teardown = handler.elapse(0, 1200).expect("the image timer must expire");
    map.apply_teardown(teardown);
    let img = Image::new(vec![9], String::from("image/png"));
    assert!(!map.finish_image(0, Some(img)));
    assert!(map.get(0).is_none());
}

#[test]
fn preview_is_fulfilled_once() {
    let mut map = LinkMap::new();
    setup_links(&mut map, &vec![post(42)]);

    // The preview cell starts empty.
    match map.get(3) {
        Some(Link::Previews(p)) => assert!(p.get().is_none()),
        _ => panic!("expected the preview entry"),
    }

    let img = Image::new(vec![4, 5], String::from("image/png"));
    assert!(map.fulfill_preview(3, Some(img)));
    match map.get(3) {
        Some(Link::Previews(p)) => {
            let value = p.get().expect("the preview is ready");
            assert_eq!(value.as_ref().unwrap().data, vec![4, 5]);
        },
        _ => panic!("expected the preview entry"),
    }

    // A second delivery is discarded: the cell is single-assignment.
    assert!(!map.fulfill_preview(3, None));
    match map.get(3) {
        Some(Link::Previews(p)) => assert!(p.get().unwrap().is_some()),
        _ => panic!("expected the preview entry"),
    }

    // Delivering to a non-preview id or an unknown id is discarded too.
    assert!(!map.fulfill_preview(0, None));
    assert!(!map.fulfill_preview(99, None));
}

#[test]
fn image_construction_keeps_fields() {
    let img = Image::new(vec![7, 8, 9], String::from("image/jpeg"));
    assert_eq!(img.data, vec![7, 8, 9]);
    assert_eq!(img.mime_type, "image/jpeg");
}
