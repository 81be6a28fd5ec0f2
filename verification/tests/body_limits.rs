use ngx_inference::body::{collect_segments, next_read_len, BodyCollector};

#[test]
fn body_exactly_at_ceiling_is_accepted() {
    let segments = vec![vec![1u8; 4], vec![2u8; 6]];
    let collected = collect_segments(&segments, 10).expect("fits exactly");
    assert_eq!(collected.len(), 10);
    assert_eq!(&collected[..4], &[1u8; 4]);
    assert_eq!(&collected[4..], &[2u8; 6]);
}

#[test]
fn body_one_byte_over_ceiling_is_refused() {
    let segments = vec![vec![1u8; 4], vec![2u8; 7]];
    assert!(collect_segments(&segments, 10).is_err());
}

#[test]
fn ceiling_check_is_independent_of_chunk_boundaries() {
    // The same eleven bytes, delivered in different segmentations, are all
    // refused against a ceiling of ten — however the boundary falls.
    let deliveries: Vec<Vec<Vec<u8>>> = vec![
        vec![vec![7u8; 11]],
        vec![vec![7u8; 10], vec![7u8; 1]],
        vec![vec![7u8; 1], vec![7u8; 10]],
        vec![vec![7u8; 5], vec![7u8; 5], vec![7u8; 1]],
    ];
    for segments in &deliveries {
        assert!(collect_segments(segments, 10).is_err());
    }
    // And all accepted against a ceiling of eleven, with identical bytes.
    for segments in &deliveries {
        assert_eq!(collect_segments(segments, 11).unwrap(), vec![7u8; 11]);
    }
}

#[test]
fn collector_refuses_offending_chunk_whole() {
    let mut collector = BodyCollector::new(8);
    collector.push_chunk(&[1, 2, 3, 4, 5, 6]).expect("within ceiling");
    assert!(collector.push_chunk(&[7, 8, 9]).is_err());
    // Nothing of the refused chunk was materialized.
    assert_eq!(collector.len(), 6);
    assert_eq!(collector.into_body(), vec![1, 2, 3, 4, 5, 6]);
}

#[test]
fn collector_pre_checks_announced_segment_sizes() {
    let mut collector = BodyCollector::new(1000);
    collector.push_chunk(&[0u8; 600]).unwrap();
    assert!(!collector.would_exceed(400));
    assert!(collector.would_exceed(401));
}

#[test]
fn empty_delivery_collects_to_empty_body() {
    let segments: Vec<Vec<u8>> = Vec::new();
    assert_eq!(collect_segments(&segments, 10).unwrap(), Vec::<u8>::new());
}

#[test]
fn spilled_segments_are_read_in_bounded_slices() {
    assert_eq!(next_read_len(10), 10);
    assert_eq!(next_read_len(65536), 65536);
    assert_eq!(next_read_len(65537), 65536);
    assert_eq!(next_read_len(0), 0);
}
