use focus_timer::render::{body_line, quit_key_text, quit_label, title_text};

#[test]
fn body_line_shows_elapsed_against_target() {
    assert_eq!(body_line(3, 25), "Elapsed: 3 / 25");
}

#[test]
fn body_line_at_start_of_a_zero_timer() {
    assert_eq!(body_line(0, 0), "Elapsed: 0 / 0");
}

#[test]
fn body_line_handles_large_values() {
    assert_eq!(
        body_line(u64::MAX, u64::MAX),
        "Elapsed: 18446744073709551615 / 18446744073709551615"
    );
}

#[test]
fn numbers_render_without_leading_zeros() {
    assert_eq!(body_line(10, 100), "Elapsed: 10 / 100");
    assert_eq!(body_line(7, 60), "Elapsed: 7 / 60");
}

#[test]
fn rendering_twice_gives_identical_text() {
    let first = body_line(12, 90);
    let second = body_line(12, 90);
    assert_eq!(first, second);
}

#[test]
fn frame_captions_are_fixed() {
    assert_eq!(title_text(), " Focus ");
    assert_eq!(quit_label(), " Quit ");
    assert_eq!(quit_key_text(), "<Q> ");
}
