use vrscreencap::texture::RoundRobinTextureBuffer;

#[test]
fn cursor_lands_on_slot_k_mod_three() {
    let mut ring: RoundRobinTextureBuffer<u32, 3> = RoundRobinTextureBuffer::new([10, 20, 30]);
    assert_eq!(*ring.current(), 10);
    for k in 1..10u32 {
        ring.next();
        let expected = [10, 20, 30][(k % 3) as usize];
        assert_eq!(*ring.current(), expected);
    }
}

#[test]
fn next_returns_the_new_current_slot() {
    let mut ring: RoundRobinTextureBuffer<u32, 3> = RoundRobinTextureBuffer::new([10, 20, 30]);
    assert_eq!(*ring.next(), 20);
    assert_eq!(*ring.next(), 30);
    assert_eq!(*ring.next(), 10);
    assert_eq!(*ring.next(), 20);
}

#[test]
fn previous_one_after_next_is_the_old_current() {
    let mut ring: RoundRobinTextureBuffer<u32, 3> = RoundRobinTextureBuffer::new([10, 20, 30]);
    for _ in 0..7 {
        let before = *ring.current();
        ring.next();
        assert_eq!(*ring.previous(1), before);
    }
}

#[test]
fn previous_wraps_around() {
    let mut ring: RoundRobinTextureBuffer<u32, 4> = RoundRobinTextureBuffer::new([1, 2, 3, 4]);
    assert_eq!(*ring.previous(0), 1);
    assert_eq!(*ring.previous(1), 4);
    assert_eq!(*ring.previous(2), 3);
    assert_eq!(*ring.previous(4), 1);
    ring.next();
    ring.next();
    assert_eq!(*ring.previous(0), 3);
    assert_eq!(*ring.previous(1), 2);
    assert_eq!(*ring.previous(2), 1);
    assert_eq!(*ring.previous(3), 4);
}

#[test]
fn next_writes_through_the_new_current_slot() {
    let mut ring: RoundRobinTextureBuffer<u32, 2> = RoundRobinTextureBuffer::new([5, 6]);
    {
        let slot = ring.next();
        *slot = 50;
    }
    // The write landed in the new current slot; the old one is a step
    // behind, untouched.
    assert_eq!(*ring.current(), 50);
    assert_eq!(*ring.previous(1), 5);
}
