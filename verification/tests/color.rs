use web_demo::color::rgb565_to_rgb888;

#[test]
fn pure_red_widens_to_full_red() {
    assert_eq!(rgb565_to_rgb888(0xF800), 0xFF0000);
}

#[test]
fn pure_green_widens_to_full_green() {
    assert_eq!(rgb565_to_rgb888(0x07E0), 0x00FF00);
}

#[test]
fn pure_blue_widens_to_full_blue() {
    assert_eq!(rgb565_to_rgb888(0x001F), 0x0000FF);
}

#[test]
fn black_and_white_stay_black_and_white() {
    assert_eq!(rgb565_to_rgb888(0x0000), 0x000000);
    assert_eq!(rgb565_to_rgb888(0xFFFF), 0xFFFFFF);
}

#[test]
fn low_bits_repeat_the_leading_bits() {
    // red 0b00011 -> 0b00011_000, green 0b100001 -> 0b100001_10, blue 0b10000 -> 0b10000_100
    assert_eq!(rgb565_to_rgb888(0x1800), 0x180000);
    assert_eq!(rgb565_to_rgb888(0x0420), 0x008600);
    assert_eq!(rgb565_to_rgb888(0x0010), 0x000084);
    assert_eq!(rgb565_to_rgb888(0x1C30), 0x188684);
}

#[test]
fn widening_is_not_the_identity_on_the_raw_value() {
    assert_ne!(rgb565_to_rgb888(0x1234), 0x1234);
    assert_eq!(rgb565_to_rgb888(0x1234), 0x1045A5);
}

#[test]
fn every_colour_widens_channel_by_channel() {
    for value in 0..=u16::MAX {
        let r = u32::from(value) / 2048;
        let g = (u32::from(value) / 32) % 64;
        let b = u32::from(value) % 32;
        let expected = (r * 8 + r / 4) * 65536 + (g * 4 + g / 16) * 256 + (b * 8 + b / 4);
        assert_eq!(rgb565_to_rgb888(value), expected, "value {value:#06x}");
    }
}

#[test]
fn narrowing_a_widened_colour_gives_it_back() {
    for value in 0..=u16::MAX {
        let rgb = rgb565_to_rgb888(value);
        let back = ((rgb >> 19) << 11) | (((rgb >> 10) & 0x3f) << 5) | ((rgb >> 3) & 0x1f);
        assert_eq!(back, u32::from(value));
    }
}

#[test]
fn widening_a_narrowed_colour_may_differ() {
    // 0x010101 narrows to 0, and 0 widens to 0.
    let narrowed: u16 = 0;
    assert_ne!(rgb565_to_rgb888(narrowed), 0x010101);
}

#[test]
fn the_crate_root_offers_the_codec() {
    assert_eq!(web_demo::rgb565_to_rgb888(0xF800), 0xFF0000);
}
