use weather_station::framebuffer::Color;
use weather_station::framebuffer::Coord;
use weather_station::framebuffer::DisplayConfig;
use weather_station::framebuffer::Framebuffer;
use weather_station::framebuffer::BUFFER_SIZE;
use weather_station::framebuffer::DISPLAY_HEIGHT;
use weather_station::framebuffer::DISPLAY_WIDTH;

fn fresh(allow: bool) -> Framebuffer {
    Framebuffer::new(DisplayConfig { allow_out_of_bounds_drawing: allow })
}

#[test]
fn new_buffer_is_all_off() {
    let fb = fresh(false);
    let bytes = fb.as_bytes();
    assert_eq!(bytes.len(), BUFFER_SIZE);
    assert!(bytes.iter().all(|&b| b == 0x00));
    assert_eq!(fb.get_pixel(0, 0), Color::Off);
    assert_eq!(
        fb.get_pixel(DISPLAY_WIDTH as i32 - 1, DISPLAY_HEIGHT as i32 - 1),
        Color::Off
    );
}

#[test]
fn set_then_get_round_trip() {
    let mut fb = fresh(false);
    for &(x, y) in &[(0, 0), (7, 0), (8, 0), (799, 0), (0, 479), (799, 479), (123, 345)] {
        fb.set_pixel_unchecked(x, y, Color::On);
        assert_eq!(fb.get_pixel(x, y), Color::On);
        fb.set_pixel_unchecked(x, y, Color::Off);
        assert_eq!(fb.get_pixel(x, y), Color::Off);
    }
}

#[test]
fn set_pixel_leaves_neighbors_alone() {
    let mut fb = fresh(false);
    fb.set_pixel_unchecked(3, 7, Color::On);
    fb.set_pixel_unchecked(4, 7, Color::On);
    fb.set_pixel_unchecked(3, 7, Color::Off);
    assert_eq!(fb.get_pixel(3, 7), Color::Off);
    assert_eq!(fb.get_pixel(4, 7), Color::On);
    assert_eq!(fb.get_pixel(2, 7), Color::Off);
    assert_eq!(fb.get_pixel(3, 6), Color::Off);
    assert_eq!(fb.get_pixel(3, 8), Color::Off);
}

#[test]
fn first_pixel_is_the_top_bit() {
    let mut fb = fresh(false);
    fb.set_pixel_unchecked(0, 0, Color::On);
    assert_eq!(fb.as_bytes()[0], 0x80);
    let mut fb = fresh(false);
    fb.set_pixel_unchecked(7, 0, Color::On);
    assert_eq!(fb.as_bytes()[0], 0x01);
}

#[test]
fn alternating_pixels_pack_to_0xaa() {
    let mut fb = fresh(false);
    for x in 0..8 {
        let color = if x % 2 == 0 { Color::On } else { Color::Off };
        fb.set_pixel_unchecked(x, 0, color);
    }
    assert_eq!(fb.as_bytes()[0], 0b1010_1010);

    // The same pattern in another row lands in that row's first byte.
    let mut fb = fresh(false);
    for x in 0..8 {
        let color = if x % 2 == 0 { Color::On } else { Color::Off };
        fb.set_pixel_unchecked(x, 3, color);
    }
    assert_eq!(fb.as_bytes()[300], 0b1010_1010);
    assert_eq!(fb.as_bytes()[0], 0x00);
}

#[test]
fn row_major_byte_addressing() {
    let mut fb = fresh(false);
    fb.set_pixel_unchecked(8, 1, Color::On);
    // Pixel index 1*800 + 8 = 808; byte 101, bit 0 (mask 0x80).
    assert_eq!(fb.as_bytes()[101], 0x80);
}

#[test]
fn draw_pixel_permissive_drops_out_of_bounds() {
    let mut fb = fresh(true);
    fb.set_pixel_unchecked(5, 5, Color::On);
    let before: Vec<u8> = fb.as_bytes().to_vec();

    assert!(fb.draw_pixel(-1, 0, Color::On).is_ok());
    assert!(fb.draw_pixel(DISPLAY_WIDTH as i32, 0, Color::On).is_ok());
    assert!(fb.draw_pixel(0, -1, Color::On).is_ok());
    assert!(fb.draw_pixel(0, DISPLAY_HEIGHT as i32, Color::On).is_ok());

    assert_eq!(fb.as_bytes(), before.as_slice());
}

#[test]
fn draw_pixel_strict_rejects_out_of_bounds() {
    let mut fb = fresh(false);
    fb.set_pixel_unchecked(5, 5, Color::On);
    let before: Vec<u8> = fb.as_bytes().to_vec();

    assert!(fb.draw_pixel(-1, 0, Color::On).is_err());
    assert!(fb.draw_pixel(DISPLAY_WIDTH as i32, 0, Color::On).is_err());

    assert_eq!(fb.as_bytes(), before.as_slice());
}

#[test]
fn draw_pixel_in_bounds_writes() {
    let mut fb = fresh(false);
    assert!(fb.draw_pixel(10, 2, Color::On).is_ok());
    assert_eq!(fb.get_pixel(10, 2), Color::On);
}

#[test]
fn set_pixels_writes_all_in_bounds_points() {
    let mut fb = fresh(false);
    let points = vec![
        Coord { x: 0, y: 0 },
        Coord { x: 1, y: 1 },
        Coord { x: 2, y: 2 },
    ];
    assert!(fb.set_pixels(&points, Color::On).is_ok());
    assert_eq!(fb.get_pixel(0, 0), Color::On);
    assert_eq!(fb.get_pixel(1, 1), Color::On);
    assert_eq!(fb.get_pixel(2, 2), Color::On);
}

#[test]
fn set_pixels_stops_at_first_out_of_bounds_point() {
    let mut fb = fresh(true);
    let points = vec![
        Coord { x: 0, y: 0 },
        Coord { x: 1, y: 0 },
        Coord { x: -1, y: 0 },
        Coord { x: 2, y: 0 },
    ];
    // The batch is not atomic: the first two points stay written.
    assert!(fb.set_pixels(&points, Color::On).is_err());
    assert_eq!(fb.get_pixel(0, 0), Color::On);
    assert_eq!(fb.get_pixel(1, 0), Color::On);
    assert_eq!(fb.get_pixel(2, 0), Color::Off);
}

#[test]
fn clear_is_idempotent() {
    let mut fb = fresh(false);
    fb.set_pixel_unchecked(13, 17, Color::On);
    fb.set_pixel_unchecked(700, 400, Color::On);

    let mut once = fresh(false);
    once.set_pixel_unchecked(1, 1, Color::On);
    once.clear(Color::Off);

    fb.clear(Color::Off);
    fb.clear(Color::Off);

    assert_eq!(fb.as_bytes(), once.as_bytes());
    assert!(fb.as_bytes().iter().all(|&b| b == 0x00));
}

#[test]
fn clear_on_packs_full_bytes() {
    let mut fb = fresh(false);
    fb.clear(Color::On);
    assert!(fb.as_bytes().iter().all(|&b| b == 0xff));
    assert_eq!(fb.get_pixel(400, 200), Color::On);
}
