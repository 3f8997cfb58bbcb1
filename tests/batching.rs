use vna::batching::{bulk_body, confirmed_count, sub_batches, BULK_INDEX_HEADER};

#[test]
fn sub_batches_are_near_equal_and_ordered() {
    assert_eq!(sub_batches(10, 4), vec![(0, 3), (3, 6), (6, 8), (8, 10)]);
    assert_eq!(sub_batches(8, 4), vec![(0, 2), (2, 4), (4, 6), (6, 8)]);
    assert_eq!(sub_batches(2, 4), vec![(0, 1), (1, 2)]);
    assert_eq!(sub_batches(0, 4), vec![]);
    assert_eq!(sub_batches(5, 0), vec![(0, 5)]);
    assert_eq!(sub_batches(5, 1), vec![(0, 5)]);
}

#[test]
fn sub_batches_cover_the_batch() {
    for n in 0..40usize {
        for p in 0..9usize {
            let r = sub_batches(n, p);
            let mut next = 0;
            for &(s, e) in &r {
                assert_eq!(s, next);
                assert!(s < e);
                next = e;
            }
            assert_eq!(next, n);
            assert!(r.len() <= p.max(1));
        }
    }
}

#[test]
fn bulk_body_puts_header_before_each_document() {
    let docs = vec!["{\"x\":1}".to_string(), "{\"y\":2}".to_string()];
    assert_eq!(
        bulk_body(&docs),
        vec![BULK_INDEX_HEADER, "{\"x\":1}", BULK_INDEX_HEADER, "{\"y\":2}"]
    );
    assert!(bulk_body(&Vec::new()).is_empty());
    assert_eq!(BULK_INDEX_HEADER, "{\"index\":{}}");
}

#[test]
fn only_successful_items_are_confirmed() {
    assert_eq!(confirmed_count(&vec![201, 200, 409, 500, 299, 300, 199]), 3);
    assert_eq!(confirmed_count(&vec![]), 0);
    assert_eq!(confirmed_count(&vec![429, 400]), 0);
}
