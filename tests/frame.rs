use julia_sets::frame::{iteration_bound, pixel_position, FrameBuffer};
use julia_sets::palette::color;

#[test]
fn new_buffer_is_empty() {
    let fb = FrameBuffer::new();
    assert_eq!(fb.width(), 0);
    assert_eq!(fb.height(), 0);
    assert!(fb.pixels().is_empty());
}

#[test]
fn resize_sets_exact_length_and_clears() {
    let mut fb = FrameBuffer::new();
    assert!(fb.resize(2, 3));
    assert_eq!(fb.pixels().len(), 6);
    fb.fill(&vec![1, 2, 3, 4, 5, 6], 10);
    assert!(fb.resize(4, 5));
    assert_eq!((fb.width(), fb.height()), (4, 5));
    assert_eq!(fb.pixels().len(), 20);
    assert!(fb.pixels().iter().all(|&p| p == 0));
    assert!(fb.resize(3, 2));
    assert_eq!(fb.pixels().len(), 6);
}

#[test]
fn resize_to_same_size_keeps_pixels() {
    let mut fb = FrameBuffer::new();
    fb.render_frame(2, 2, &vec![0, 1, 2, 3], 4);
    let before = fb.pixels().clone();
    assert!(!fb.resize(2, 2));
    assert_eq!(fb.pixels(), &before);
}

#[test]
fn resize_to_zero_pixels() {
    let mut fb = FrameBuffer::new();
    fb.resize(5, 5);
    assert!(fb.resize(0, 7));
    assert!(fb.pixels().is_empty());
}

#[test]
fn render_frame_recomputes_every_pixel() {
    let mut fb = FrameBuffer::new();
    fb.render_frame(3, 2, &vec![10; 6], 10);
    let counts: Vec<u32> = vec![0, 1, 2, 3, 4, 5, 6, 7, 8, 9, 10, 3];
    fb.render_frame(4, 3, &counts, 10);
    assert_eq!((fb.width(), fb.height()), (4, 3));
    assert_eq!(fb.pixels().len(), 12);
    for (i, &c) in counts.iter().enumerate() {
        assert_eq!(fb.pixels()[i], color(c, 10));
    }
    assert_eq!(fb.pixels()[5], 8376096);
    assert_ne!(fb.pixels()[5], 5);
}

#[test]
fn fill_keeps_order_on_a_large_frame() {
    let mut fb = FrameBuffer::new();
    let (w, h) = (300usize, 200usize);
    let counts: Vec<u32> = (0..w * h).map(|i| (i % 101) as u32).collect();
    fb.resize(w, h);
    fb.fill(&counts, 100);
    for i in 0..w * h {
        assert_eq!(fb.pixels()[i], color(counts[i], 100));
    }
}

#[test]
fn pixel_positions_are_row_major() {
    assert_eq!(pixel_position(0, 800, 600), (0, 0));
    assert_eq!(pixel_position(799, 800, 600), (799, 0));
    assert_eq!(pixel_position(800, 800, 600), (0, 1));
    assert_eq!(pixel_position(800 * 600 - 1, 800, 600), (799, 599));
    assert_eq!(pixel_position(7, 3, 4), (1, 2));
    assert_eq!(pixel_position(4, 1, 5), (0, 4));
}

#[test]
fn iteration_bound_is_positive() {
    assert_eq!(iteration_bound(i64::MIN), 1);
    assert_eq!(iteration_bound(-3), 1);
    assert_eq!(iteration_bound(0), 1);
    assert_eq!(iteration_bound(1), 1);
    assert_eq!(iteration_bound(98), 98);
    assert_eq!(iteration_bound(100), 100);
    assert_eq!(iteration_bound(i64::MAX), u32::MAX);
}

#[test]
fn default_width_gives_bound_98() {
    // A viewport 4 wide: floor(100 - log2 4) = 98.
    let depth = (100.0f64 - 4.0f64.log2()).floor() as i64;
    assert_eq!(iteration_bound(depth), 98);
    for w in [4.0f64, 2.0, 1.0, 0.5, 1e-3, 1e-300] {
        assert!(iteration_bound((100.0 - w.log2()).floor() as i64) >= 1);
    }
}
