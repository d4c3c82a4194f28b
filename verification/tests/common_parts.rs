use critical_section as _;
use esp_panels::clock::{elapsed_millis, uptime_micros, uptime_millis};
use esp_panels::color::{pixel_color, Color};
use esp_panels::line::{coordinate, line_colors};
use esp_panels::pages::{next_page, previous_page};
use esp_panels::panel::Orientation;

#[test]
fn elapsed_time_is_in_whole_milliseconds() {
    assert_eq!(elapsed_millis(5_000, 5_000), 0);
    assert_eq!(elapsed_millis(5_999, 5_000), 0);
    assert_eq!(elapsed_millis(6_000, 5_000), 1);
    assert_eq!(elapsed_millis(505_000, 5_000), 500);
    assert_eq!(elapsed_millis(u64::MAX, 0), 18_446_744_073_709_551);
}

#[test]
fn uptime_counts_from_start() {
    assert_eq!(uptime_millis(0), 0);
    assert_eq!(uptime_millis(1_999), 1);
    assert_eq!(uptime_millis(u64::MAX), 18_446_744_073_709_551);
    assert_eq!(uptime_micros(1_999), 1_999);
    assert_eq!(uptime_micros(u64::MAX), u64::MAX);
}

#[test]
fn the_clock_ticks_once_a_microsecond() {
    assert_eq!(embassy_time::TICK_HZ, 1_000_000);
    let start = embassy_time::Instant::from_millis(20).as_ticks();
    let end = embassy_time::Instant::from_millis(520).as_ticks();
    assert_eq!(elapsed_millis(end, start), 500);
}

#[test]
fn colors_have_five_six_and_five_bits() {
    assert_eq!(pixel_color(0xFFFF), Color { r: 31, g: 63, b: 31 });
    assert_eq!(pixel_color(0xF800), Color { r: 31, g: 0, b: 0 });
    assert_eq!(pixel_color(0x07E0), Color { r: 0, g: 63, b: 0 });
    assert_eq!(pixel_color(0x001F), Color { r: 0, g: 0, b: 31 });
    assert_eq!(pixel_color(0x1234), Color { r: 2, g: 17, b: 20 });
}

#[test]
fn every_color_keeps_its_bits() {
    for raw in 0..=u16::MAX {
        let color = pixel_color(raw);
        let back = ((color.r as u16) << 11) | ((color.g as u16) << 5) | color.b as u16;
        assert_eq!(back, raw);
        let rebuilt = embedded_graphics::pixelcolor::Rgb565::new(color.r, color.g, color.b);
        let drawn: embedded_graphics::pixelcolor::Rgb565 =
            embedded_graphics::pixelcolor::raw::RawU16::new(raw).into();
        assert_eq!(rebuilt, drawn);
    }
}

#[test]
fn coordinates_are_cut_to_sixteen_bits() {
    assert_eq!(coordinate(0), 0);
    assert_eq!(coordinate(319), 319);
    assert_eq!(coordinate(65_535), 65_535);
    assert_eq!(coordinate(65_536), 0);
    assert_eq!(coordinate(65_541), 5);
}

#[test]
fn line_colors_are_those_of_the_range() {
    let buffer = [0x0000, 0xF800, 0x07E0, 0x001F];
    assert_eq!(
        line_colors(&buffer, 1, 3),
        vec![Color { r: 31, g: 0, b: 0 }, Color { r: 0, g: 63, b: 0 }]
    );
    assert_eq!(line_colors(&buffer, 2, 2), vec![]);
}

#[test]
fn pages_form_a_ring() {
    assert_eq!(next_page(0, 3), 1);
    assert_eq!(next_page(1, 3), 2);
    assert_eq!(next_page(2, 3), 0);
    assert_eq!(previous_page(0, 3), 2);
    assert_eq!(previous_page(2, 3), 1);
    for page in 0..3 {
        assert_eq!(previous_page(next_page(page, 3), 3), page);
        assert_eq!(next_page(previous_page(page, 3), 3), page);
    }
}

#[test]
fn a_page_outside_the_ring_keeps_its_sign() {
    assert_eq!(next_page(7, 3), 2);
    assert_eq!(next_page(-1, 3), 0);
    assert_eq!(next_page(-5, 3), -1);
    assert_eq!(next_page(i32::MAX - 1, 3), 1);
    assert_eq!(next_page(i32::MIN, 3), -1);
}

#[test]
fn flipping_mirrors_and_undoes_itself() {
    let upright = Orientation::upright();
    assert_eq!(upright, Orientation { degrees: 0, mirrored: false });
    assert_eq!(upright.flip_horizontal(), Orientation { degrees: 0, mirrored: true });
    let side = Orientation { degrees: 90, mirrored: false };
    assert_eq!(side.flip_horizontal(), Orientation { degrees: 270, mirrored: true });
    let other_side = Orientation { degrees: 270, mirrored: true };
    assert_eq!(other_side.flip_horizontal(), Orientation { degrees: 90, mirrored: false });
    for degrees in [0, 90, 180, 270] {
        for mirrored in [false, true] {
            let o = Orientation { degrees, mirrored };
            assert_eq!(o.flip_horizontal().flip_horizontal(), o);
        }
    }
}
