use image_tager::batching::{chunk_ranges, reduction_chunk_size, reduction_ranges, MAX_QUERY_VECTORS};

#[test]
fn chunks_cover_in_order() {
    assert_eq!(chunk_ranges(5, 2), vec![(0, 2), (2, 4), (4, 5)]);
    assert_eq!(chunk_ranges(6, 3), vec![(0, 3), (3, 6)]);
    assert_eq!(chunk_ranges(2, 8), vec![(0, 2)]);
}

#[test]
fn chunks_of_nothing() {
    assert!(chunk_ranges(0, 4).is_empty());
}

#[test]
fn reduction_leaves_small_sets_unchanged() {
    assert_eq!(reduction_chunk_size(1), 1);
    assert_eq!(reduction_chunk_size(32), 1);
    let r = reduction_ranges(32);
    assert_eq!(r.len(), 32);
    for (i, (s, e)) in r.iter().enumerate() {
        assert_eq!((*s, *e), (i, i + 1));
    }
    assert_eq!(reduction_ranges(1), vec![(0, 1)]);
}

#[test]
fn reduction_of_sixty_five() {
    assert_eq!(reduction_chunk_size(65), 4);
    let r = reduction_ranges(65);
    assert_eq!(r.len(), 17);
    assert_eq!(r[0], (0, 4));
    assert_eq!(r[15], (60, 64));
    assert_eq!(r[16], (64, 65));
    assert!(r.iter().all(|(s, e)| e - s <= 4 && e > s));
}

#[test]
fn reduction_just_above_the_cap() {
    // 33 probes: chunks of 1 + ceil(33 / 32) = 3, giving 11 query vectors
    assert_eq!(reduction_chunk_size(33), 3);
    assert_eq!(reduction_ranges(33).len(), 11);
    assert_eq!(reduction_chunk_size(64), 3);
    assert_eq!(reduction_ranges(64).len(), 22);
}

#[test]
fn reduction_is_bounded_for_many_sizes() {
    for n in 1..2000usize {
        let r = reduction_ranges(n);
        assert!(!r.is_empty() && r.len() <= MAX_QUERY_VECTORS, "n = {}", n);
        assert_eq!(r[0].0, 0);
        assert_eq!(r[r.len() - 1].1, n);
        for w in r.windows(2) {
            assert_eq!(w[0].1, w[1].0);
        }
    }
}
