use flappy_core::geometry::Rect;
use flappy_core::pipe::{
    Pipe, Pipes, FIRST_PIPE_X, PIPE_DISTANCE, PIPE_GAP, PIPE_WIDTH, RECYCLE_X,
};
use flappy_core::rng::Rng;
use flappy_core::{SCALE, SCREEN_HEIGHT};

#[test]
fn new_ring_lays_pairs_at_increasing_offscreen_positions() {
    let p = Pipes::new(42, 4);
    assert_eq!(p.len(), 4);
    assert_eq!(p.head, 0);
    for j in 0..4usize {
        let pair = &p.pipes[j];
        assert_eq!(pair.up.x, FIRST_PIPE_X + (j as i64) * PIPE_DISTANCE);
        assert_eq!(pair.down.x, pair.up.x);
    }
}

#[test]
fn pair_vertical_geometry_holds_for_every_pair() {
    // lower.y - (upper.y + upper.height) == GAP, and
    // upper.height + GAP + lower.height == SCREEN_HEIGHT.
    for seed in [0u64, 1, 2, 3, 99] {
        let p = Pipes::new(seed, 4);
        for j in 0..4usize {
            let pair = &p.pipes[j];
            assert_eq!(pair.up.y, 0);
            assert_eq!(pair.down.y - (pair.up.y + pair.up.height), PIPE_GAP);
            assert_eq!(pair.up.height + PIPE_GAP + pair.down.height, SCREEN_HEIGHT);
            assert!(100 * SCALE <= pair.up.height && pair.up.height < 300 * SCALE);
        }
    }
}

#[test]
fn ring_order_spacing_is_exact_after_updates_and_respawns() {
    let mut p = Pipes::new(7, 4);
    for _ in 0..5000u32 {
        p.update(1);
        for i in 0..3usize {
            let a = p.get(i).up.x;
            let b = p.get(i + 1).up.x;
            assert_eq!(b - a, PIPE_DISTANCE);
        }
    }
}

#[test]
fn update_moves_all_pairs_in_lock_step() {
    let mut p = Pipes::new(11, 4);
    p.update(1000);
    for j in 0..4usize {
        assert_eq!(p.pipes[j].up.x, FIRST_PIPE_X + (j as i64) * PIPE_DISTANCE - 3_000_000);
    }
    assert_eq!(p.head, 0);
}

#[test]
fn respawn_recycles_head_pair_past_the_farthest() {
    let mut p = Pipes::new(3, 4);
    // 3167 one-millisecond frames take the head pair just below the
    // recycle threshold: 8_000_000 - 3_000 * 3167 = -1_501_000.
    for _ in 0..3166u32 {
        p.update(1);
    }
    assert_eq!(p.head, 0);
    assert_eq!(p.pipes[0].up.x, -1_498_000);
    p.update(1);
    assert_eq!(p.head, 1);
    // the recycled pair sits one distance past the old farthest pair
    assert_eq!(p.pipes[0].up.x, -1_501_000 + 4 * PIPE_DISTANCE);
    assert_eq!(p.get(3).up.x, p.get(2).up.x + PIPE_DISTANCE);
}

#[test]
fn respawn_count_over_a_long_scroll() {
    // Capacity 4, inter-pipe distance 350 units, width 100, screen 800.
    // 33333 frames of 1 ms at 300 units/s move every pair 9999.9 units
    // left. Pair n reaches the recycle threshold after its x, starting at
    // 800 + 350n units, has dropped below -150: that happens for n = 0..25,
    // so 26 respawns occur and the head has advanced 26 times.
    let mut p = Pipes::new(1234, 4);
    let mut respawns: u32 = 0;
    let mut prev_head = p.head;
    for _ in 0..33333u32 {
        p.update(1);
        if p.head != prev_head {
            respawns += 1;
            prev_head = p.head;
        }
    }
    assert_eq!(respawns, 26);
    assert_eq!(p.head, (26 % 4) as usize);
}

#[test]
fn identical_seeds_and_frame_times_give_identical_rings() {
    let mut a = Pipes::new(987654321, 4);
    let mut b = Pipes::new(987654321, 4);
    assert_eq!(a, b);
    for dt in [16u64, 17, 1000, 0, 33, 2500, 1, 1, 999] {
        a.update(dt);
        b.update(dt);
        assert_eq!(a, b);
    }
}

#[test]
fn different_seeds_give_different_heights() {
    let a = Pipes::new(0, 4);
    let b = Pipes::new(1, 4);
    let ha: Vec<i64> = a.pipes.iter().map(|p| p.up.height).collect();
    let hb: Vec<i64> = b.pipes.iter().map(|p| p.up.height).collect();
    assert_ne!(ha, hb);
}

#[test]
fn successive_samples_vary_within_one_ring() {
    // a stuck generator would give every pair the same height for every seed
    let mut all_equal = true;
    for seed in 0u64..8 {
        let p = Pipes::new(seed, 4);
        for j in 1..4usize {
            if p.pipes[j].up.height != p.pipes[0].up.height {
                all_equal = false;
            }
        }
    }
    assert!(!all_equal);
}

#[test]
fn clear_respawns_everything_and_keeps_the_stream() {
    let mut p = Pipes::new(5, 4);
    for _ in 0..10u32 {
        p.update(500);
    }
    p.clear();
    assert_eq!(p.head, 0);
    for j in 0..4usize {
        assert_eq!(p.pipes[j].up.x, FIRST_PIPE_X + (j as i64) * PIPE_DISTANCE);
    }
}

#[test]
fn reset_with_a_seed_equals_a_fresh_ring() {
    let mut p = Pipes::new(5, 4);
    for _ in 0..10u32 {
        p.update(500);
    }
    p.reset(77);
    let q = Pipes::new(77, 4);
    assert_eq!(p, q);
}

#[test]
fn capacity_one_ring_recycles_onto_itself() {
    let mut p = Pipes::new(13, 1);
    assert_eq!(p.len(), 1);
    for _ in 0..3u32 {
        p.update(1000);
    }
    assert_eq!(p.pipes[0].up.x, 8_000_000 - 9_000_000);
    p.update(1000);
    // moved to -4_000_000, recycled one distance past itself
    assert_eq!(p.pipes[0].up.x, -4_000_000 + PIPE_DISTANCE);
    assert_eq!(p.head, 0);
}

#[test]
fn touching_rectangles_do_not_overlap() {
    let a = Rect::new(0, 0, 100, 100);
    let b = Rect::new(100, 0, 100, 100);
    assert!(!a.overlaps(&b));
    assert!(!b.overlaps(&a));
    let c = Rect::new(0, 100, 100, 100);
    assert!(!a.overlaps(&c));
    let d = Rect::new(99, 0, 100, 100);
    assert!(a.overlaps(&d));
    let e = Rect::new(99, 99, 100, 100);
    assert!(a.overlaps(&e));
}

#[test]
fn collision_boundary_against_a_real_pipe_is_strict() {
    let p = Pipes::new(21, 4);
    let px = p.pipes[0].up.x;
    // a rectangle whose right edge exactly touches the pipe's left edge
    let touching = Rect::new(px - 500_000, 100_000, 500_000, 500_000);
    assert!(!p.is_colliding(&touching));
    // one step of positive overlap on both axes collides
    let overlapping = Rect::new(px - 500_000 + 1, 100_000, 500_000, 500_000);
    assert!(p.is_colliding(&overlapping));
}

#[test]
fn rectangle_inside_the_gap_does_not_collide() {
    let p = Pipes::new(21, 4);
    let pair = &p.pipes[0];
    let inside_gap = Rect::new(pair.up.x, pair.up.height + 1, PIPE_WIDTH, PIPE_GAP - 2);
    assert!(!p.is_colliding(&inside_gap));
    let into_upper = Rect::new(pair.up.x, pair.up.height - 1, PIPE_WIDTH, PIPE_GAP - 2);
    assert!(p.is_colliding(&into_upper));
}

#[test]
fn bounding_boxes_lists_both_pipes_of_every_pair() {
    let p = Pipes::new(2, 4);
    let boxes = p.bounding_boxes();
    assert_eq!(boxes.len(), 8);
    for j in 0..4usize {
        let pair = &p.pipes[j];
        assert_eq!(boxes[2 * j], pair.up.position());
        assert_eq!(boxes[2 * j + 1], pair.down.position());
        assert_eq!(boxes[2 * j].w, PIPE_WIDTH);
    }
}

#[test]
fn new_pair_samples_within_the_range_and_advances_the_generator() {
    let mut rng = Rng::new(55);
    let before = rng;
    let (up, down) = Pipe::new_pair(&mut rng);
    assert_eq!(up.x, FIRST_PIPE_X);
    assert_eq!(down.x, FIRST_PIPE_X);
    assert!(100 * SCALE <= up.height && up.height < 300 * SCALE);
    assert_eq!(up.height + PIPE_GAP + down.height, SCREEN_HEIGHT);
    assert_ne!(rng, before);
}

#[test]
fn front_and_back_follow_the_head() {
    let mut p = Pipes::new(31, 4);
    assert_eq!(p.front().up.x, FIRST_PIPE_X);
    assert_eq!(p.back().up.x, FIRST_PIPE_X + 3 * PIPE_DISTANCE);
    // scroll until one respawn has happened
    for _ in 0..3167u32 {
        p.update(1);
    }
    assert_eq!(p.head, 1);
    assert_eq!(p.front().up.x, p.back().up.x - 3 * PIPE_DISTANCE);
    assert!(p.front().up.x > RECYCLE_X);
}

#[test]
fn get_wraps_any_index_around_the_ring() {
    let p = Pipes::new(19, 4);
    assert_eq!(p.get(4), p.get(0));
    assert_eq!(p.get(7), p.get(3));
    assert_eq!(p.get(1000), p.get(0));
    let q = Pipes::new(19, 1);
    assert_eq!(q.get(12345), q.get(0));
}

#[test]
fn pipe_getters_and_setters_work() {
    let mut rng = Rng::new(8);
    let (mut up, _) = Pipe::new_pair(&mut rng);
    assert_eq!(up.get_x(), FIRST_PIPE_X);
    up.set_x(12345);
    assert_eq!(up.get_x(), 12345);
    let r = up.position();
    assert_eq!(r.x, 12345);
    assert_eq!(r.w, PIPE_WIDTH);
}
