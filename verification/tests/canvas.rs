use urahafu::canvas::{Canvas, PixelRect};
use urahafu::color::Rgb;

#[test]
fn fill_sets_every_pixel() {
    let buffer = vec![0u32; 16];
    let mut canvas = Canvas::new(buffer, 4, 4, 4);
    canvas.fill(Rgb::new(10, 20, 30));
    for &word in canvas.buffer() {
        assert_eq!(word, Rgb::new(10, 20, 30).to_u32());
    }
}

#[test]
fn fill_respects_stride_padding() {
    let buffer = vec![0u32; 4 * 4];
    let mut canvas = Canvas::new(buffer, 3, 4, 4);
    canvas.fill(Rgb::white());
    let buffer = canvas.into_buffer();
    // Column 3 (the padding column) must be untouched.
    for y in 0..4 {
        assert_eq!(buffer[y * 4 + 3], 0, "padding column should not be written");
        for x in 0..3 {
            assert_eq!(buffer[y * 4 + x], Rgb::white().to_u32());
        }
    }
}

#[test]
fn fill_leaves_words_past_the_last_row_alone() {
    let buffer = vec![7u32; 10];
    let mut canvas = Canvas::new(buffer, 2, 2, 3);
    canvas.fill(Rgb::new(1, 2, 3));
    let w = Rgb::new(1, 2, 3).to_u32();
    assert_eq!(canvas.buffer(), &[w, w, 7, w, w, 7, 7, 7, 7, 7]);
}

#[test]
fn canvas_reports_its_size() {
    let canvas = Canvas::new(vec![0u32; 12], 3, 2, 6);
    assert_eq!(canvas.width(), 3);
    assert_eq!(canvas.height(), 2);
    assert_eq!(canvas.width_i32(), 3);
    assert_eq!(canvas.height_i32(), 2);
}

#[test]
fn clip_rect_clips_on_every_edge() {
    let canvas = Canvas::new(vec![0u32; 16], 4, 4, 4);
    assert_eq!(canvas.clip_rect(PixelRect::new(-2, -2, 4, 4)), Some((0, 0, 2, 2)));
    assert_eq!(canvas.clip_rect(PixelRect::new(2, 2, 10, 10)), Some((2, 2, 4, 4)));
    assert_eq!(canvas.clip_rect(PixelRect::new(1, 1, 2, 2)), Some((1, 1, 3, 3)));
}

#[test]
fn clip_rect_of_empty_or_off_canvas_rect_is_none() {
    let canvas = Canvas::new(vec![0u32; 16], 4, 4, 4);
    assert_eq!(canvas.clip_rect(PixelRect::new(0, 0, 0, 3)), None);
    assert_eq!(canvas.clip_rect(PixelRect::new(0, 0, 3, -1)), None);
    assert_eq!(canvas.clip_rect(PixelRect::new(10, 10, 4, 4)), None);
    assert_eq!(canvas.clip_rect(PixelRect::new(-10, 0, 4, 4)), None);
    assert_eq!(canvas.clip_rect(PixelRect::new(4, 0, 4, 4)), None);
}

#[test]
fn clip_rect_saturates_instead_of_overflowing() {
    let canvas = Canvas::new(vec![0u32; 16], 4, 4, 4);
    assert_eq!(
        canvas.clip_rect(PixelRect::new(i32::MAX - 1, 0, i32::MAX, 2)),
        None
    );
    assert_eq!(
        canvas.clip_rect(PixelRect::new(1, 1, i32::MAX, i32::MAX)),
        Some((1, 1, 4, 4))
    );
}

#[test]
fn set_pixel_then_pixel_reads_it_back() {
    let mut canvas = Canvas::new(vec![0u32; 12], 3, 3, 4);
    let c = Rgb::new(200, 100, 50);
    canvas.set_pixel(2, 1, c);
    assert_eq!(canvas.pixel(2, 1), Some(c));
    assert_eq!(canvas.buffer()[1 * 4 + 2], c.to_u32());
    assert_eq!(canvas.pixel(1, 1), Some(Rgb::black()));
}

#[test]
fn pixels_off_the_canvas_are_none_and_writes_there_are_no_ops() {
    let mut canvas = Canvas::new(vec![0u32; 12], 3, 3, 4);
    canvas.set_pixel(3, 0, Rgb::white());
    canvas.set_pixel(-1, 0, Rgb::white());
    canvas.set_pixel(0, 3, Rgb::white());
    assert!(canvas.buffer().iter().all(|&w| w == 0));
    assert_eq!(canvas.pixel(3, 0), None);
    assert_eq!(canvas.pixel(0, -1), None);
}
