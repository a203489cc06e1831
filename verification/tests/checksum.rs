//! The Fletcher-16 checksum.

use p2pong::game::fletcher16;

#[test]
fn known_checksum_of_small_buffer() {
    // By hand: sums run (1,1), (3,4), (6,10); checksum 10 << 8 | 6.
    assert_eq!(fletcher16(&[1, 2, 3]), 2566);
}

#[test]
fn empty_buffer_checksum_is_zero() {
    assert_eq!(fletcher16(&[]), 0);
}

#[test]
fn identical_buffers_identical_checksums() {
    let a = vec![17u8, 250, 0, 99, 42];
    let b = a.clone();
    assert_eq!(fletcher16(&a), fletcher16(&b));
}

#[test]
fn single_byte_mutation_changes_checksum() {
    let original = vec![10u8, 20, 30, 40, 50];
    let reference = fletcher16(&original);
    for i in 0..original.len() {
        let mut mutated = original.clone();
        mutated[i] = mutated[i].wrapping_add(1);
        assert_ne!(fletcher16(&mutated), reference);
    }
}
