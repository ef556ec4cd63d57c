use gbcore::fps_counter::FpsCounter;

#[test]
fn new_counter_reports_zero() {
    let c = FpsCounter::new();
    assert_eq!(c.frames, 0);
    assert_eq!(c.fps, 0);
}

#[test]
fn frames_within_window_are_counted() {
    let mut c = FpsCounter::new();
    assert_eq!(c.count_frame(false), 0);
    assert_eq!(c.count_frame(false), 0);
    assert_eq!(c.frames, 2);
}

#[test]
fn window_end_reports_count_including_current_frame() {
    let mut c = FpsCounter::new();
    c.count_frame(false);
    c.count_frame(false);
    assert_eq!(c.count_frame(true), 3);
    assert_eq!(c.frames, 0);
    assert_eq!(c.count_frame(false), 3);
    assert_eq!(c.frames, 1);
}

#[test]
fn frame_count_saturates() {
    let mut c = FpsCounter::new();
    c.frames = u32::MAX;
    c.count_frame(false);
    assert_eq!(c.frames, u32::MAX);
    assert_eq!(c.count_frame(true), u32::MAX);
}

#[test]
fn get_fps_counts_a_frame() {
    let mut c = FpsCounter::new();
    let r = c.get_fps();
    assert_eq!(r, c.fps);
    assert!((c.frames == 1 && c.fps == 0) || (c.frames == 0 && c.fps == 1));
}
