//! Renderer behaviour: an unconditional full paint first, then exactly one
//! paint per changed cell.

use invaders::NUM_COLS;
use invaders::NUM_ROWS;
use invaders::frame::new_frame;
use invaders::render::Renderer;
use invaders::render::frame_diff;

#[test]
fn first_render_paints_every_cell() {
    let mut r = Renderer::new();
    let paints = r.next_frame(new_frame());
    assert_eq!(paints.len(), NUM_ROWS * NUM_COLS);
}

#[test]
fn second_render_paints_exactly_changed_cells() {
    let mut r = Renderer::new();
    r.next_frame(new_frame());
    let mut f = new_frame();
    f.set(3, 7, 'a');
    f.set(0, 0, 'b');
    f.set(39, 19, 'c');
    let paints = r.next_frame(f);
    assert_eq!(paints.len(), 3);
    assert!(paints.contains(&(3, 7, 'a')));
    assert!(paints.contains(&(0, 0, 'b')));
    assert!(paints.contains(&(39, 19, 'c')));
}

#[test]
fn identical_frames_need_no_paints() {
    let mut r = Renderer::new();
    let mut f = new_frame();
    f.set(10, 10, 'z');
    r.next_frame(f);
    let mut g = new_frame();
    g.set(10, 10, 'z');
    let paints = r.next_frame(g);
    assert_eq!(paints.len(), 0);
}

#[test]
fn diff_reports_reverted_cells_too() {
    let mut a = new_frame();
    a.set(5, 5, 'x');
    let b = new_frame();
    let paints = frame_diff(&a, &b, false);
    assert_eq!(paints, vec![(5, 5, ' ')]);
}

#[test]
fn forced_diff_covers_the_grid() {
    let mut a = new_frame();
    a.set(2, 2, 'q');
    let paints = frame_diff(&a, &a, true);
    assert_eq!(paints.len(), NUM_ROWS * NUM_COLS);
    assert!(paints.contains(&(2, 2, 'q')));
}
