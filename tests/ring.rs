use termsonic::ring::{create_ring_buffer, SampleRing, RING_BUFFER_CAPACITY};

fn bits(values: &[f32]) -> Vec<u32> {
    values.iter().map(|v| v.to_bits()).collect()
}

#[test]
fn push_five_pop_eight_returns_them_in_order() {
    let mut ring = SampleRing::with_capacity(8);
    let samples = bits(&[1.0, 2.0, 3.0, 4.0, 5.0]);
    let written = ring.push_block(&samples);
    assert_eq!(written, 5);
    let out = ring.pop_block(8);
    assert_eq!(out.len(), 5);
    assert_eq!(out, samples);
    assert_eq!(ring.len(), 0);
}

#[test]
fn push_beyond_capacity_drops_the_newest_excess() {
    let mut ring = SampleRing::with_capacity(4);
    assert_eq!(ring.push_block(&[10, 11, 12]), 3);
    assert_eq!(ring.free_space(), 1);
    assert_eq!(ring.push_block(&[13, 14, 15]), 1);
    assert_eq!(ring.free_space(), 0);
    assert_eq!(ring.push_block(&[16]), 0);
    assert_eq!(ring.pop_block(10), vec![10, 11, 12, 13]);
}

#[test]
fn pop_from_empty_ring_returns_nothing() {
    let mut ring = SampleRing::with_capacity(8);
    assert!(ring.pop_block(3).is_empty());
    assert_eq!(ring.len(), 0);
}

#[test]
fn partial_pops_keep_order_across_wraparound() {
    let mut ring = SampleRing::with_capacity(4);
    assert_eq!(ring.push_block(&[1, 2, 3]), 3);
    assert_eq!(ring.pop_block(2), vec![1, 2]);
    assert_eq!(ring.push_block(&[4, 5, 6]), 3);
    assert_eq!(ring.len(), 4);
    assert_eq!(ring.pop_block(3), vec![3, 4, 5]);
    assert_eq!(ring.pop_block(3), vec![6]);
}

#[test]
fn pushing_exactly_capacity_loses_nothing() {
    let mut ring = SampleRing::with_capacity(6);
    let samples: Vec<u32> = (100..106).collect();
    assert_eq!(ring.push_block(&samples), 6);
    assert_eq!(ring.pop_block(6), samples);
}

#[test]
fn capture_ring_has_the_standard_capacity() {
    let ring = create_ring_buffer();
    assert_eq!(ring.capacity(), RING_BUFFER_CAPACITY);
    assert_eq!(ring.capacity(), 8192);
    assert_eq!(ring.len(), 0);
    assert_eq!(ring.free_space(), 8192);
}
