use web_demo::theme::decode_color;
use web_demo::theme::get_theme_colors;
use web_demo::theme::PayloadError;
use web_demo::theme::Theme;
use web_demo::theme::ThemeColors;
use web_demo::theme::ThemeSlot;

fn sample() -> Theme {
    Theme {
        background: 0x0000,
        background2: 0x2104,
        background3: 0x4208,
        foreground: 0xFFFF,
        foreground2: 0xF800,
        foreground3: 0x07E0,
    }
}

const SLOTS: [ThemeSlot; 6] = [
    ThemeSlot::Background,
    ThemeSlot::Background2,
    ThemeSlot::Background3,
    ThemeSlot::Foreground,
    ThemeSlot::Foreground2,
    ThemeSlot::Foreground3,
];

#[test]
fn the_six_keys_name_the_six_slots() {
    assert_eq!(ThemeSlot::from_key("background"), Some(ThemeSlot::Background));
    assert_eq!(ThemeSlot::from_key("background2"), Some(ThemeSlot::Background2));
    assert_eq!(ThemeSlot::from_key("background3"), Some(ThemeSlot::Background3));
    assert_eq!(ThemeSlot::from_key("foreground"), Some(ThemeSlot::Foreground));
    assert_eq!(ThemeSlot::from_key("foreground2"), Some(ThemeSlot::Foreground2));
    assert_eq!(ThemeSlot::from_key("foreground3"), Some(ThemeSlot::Foreground3));
}

#[test]
fn other_keys_name_no_slot() {
    for key in ["foreground9", "foreground1", "background1", "", "Background", "foreground ", "fg"] {
        assert_eq!(ThemeSlot::from_key(key), None, "key {key:?}");
    }
}

#[test]
fn every_slot_is_found_under_its_key() {
    for slot in SLOTS {
        assert_eq!(ThemeSlot::from_key(slot.key()), Some(slot));
    }
}

#[test]
fn get_reads_each_slot() {
    let theme = sample();
    assert_eq!(theme.get(ThemeSlot::Background), 0x0000);
    assert_eq!(theme.get(ThemeSlot::Background2), 0x2104);
    assert_eq!(theme.get(ThemeSlot::Background3), 0x4208);
    assert_eq!(theme.get(ThemeSlot::Foreground), 0xFFFF);
    assert_eq!(theme.get(ThemeSlot::Foreground2), 0xF800);
    assert_eq!(theme.get(ThemeSlot::Foreground3), 0x07E0);
}

#[test]
fn set_overwrites_one_slot_only() {
    for slot in SLOTS {
        let mut theme = sample();
        theme.set(slot, 0x1234);
        for other in SLOTS {
            let expected = if other == slot { 0x1234 } else { sample().get(other) };
            assert_eq!(theme.get(other), expected);
        }
    }
}

#[test]
fn numbers_in_range_decode_to_themselves() {
    assert_eq!(decode_color(0), 0);
    assert_eq!(decode_color(0xF800), 0xF800);
    assert_eq!(decode_color(65535), 65535);
}

#[test]
fn numbers_out_of_range_decode_to_the_nearest_colour() {
    assert_eq!(decode_color(-1), 0);
    assert_eq!(decode_color(i64::MIN), 0);
    assert_eq!(decode_color(65536), 65535);
    assert_eq!(decode_color(i64::MAX), 65535);
}

#[test]
fn a_sound_payload_overwrites_its_slot() {
    let mut theme = sample();
    assert_eq!(theme.apply_payload(Some("background2"), Some(0x001F)), Ok(ThemeSlot::Background2));
    assert_eq!(theme, Theme { background2: 0x001F, ..sample() });
}

#[test]
fn a_payload_for_the_first_foreground_uses_the_plain_key() {
    let mut theme = sample();
    assert_eq!(theme.apply_payload(Some("foreground"), Some(7)), Ok(ThemeSlot::Foreground));
    assert_eq!(theme.foreground, 7);
}

#[test]
fn a_payload_out_of_range_is_clamped() {
    let mut theme = sample();
    assert_eq!(theme.apply_payload(Some("foreground3"), Some(1_000_000)), Ok(ThemeSlot::Foreground3));
    assert_eq!(theme.foreground3, 0xFFFF);
    assert_eq!(theme.apply_payload(Some("foreground3"), Some(-5)), Ok(ThemeSlot::Foreground3));
    assert_eq!(theme.foreground3, 0);
}

#[test]
fn unknown_theme_key_changes_nothing() {
    let mut theme = sample();
    assert_eq!(theme.apply_payload(Some("foreground9"), Some(0x1234)), Err(PayloadError::UnknownKey));
    assert_eq!(theme, sample());
}

#[test]
fn a_payload_without_a_key_changes_nothing() {
    let mut theme = sample();
    assert_eq!(theme.apply_payload(None, Some(0x1234)), Err(PayloadError::MissingKey));
    assert_eq!(theme, sample());
}

#[test]
fn a_payload_without_a_number_changes_nothing() {
    let mut theme = sample();
    assert_eq!(theme.apply_payload(Some("background"), None), Err(PayloadError::NotANumber));
    assert_eq!(theme, sample());
}

#[test]
fn the_key_is_judged_before_the_number() {
    let mut theme = sample();
    assert_eq!(theme.apply_payload(None, None), Err(PayloadError::MissingKey));
    assert_eq!(theme.apply_payload(Some("nope"), None), Err(PayloadError::UnknownKey));
    assert_eq!(theme, sample());
}

#[test]
fn theme_colors_are_the_widened_slots() {
    assert_eq!(
        get_theme_colors(&sample()),
        ThemeColors {
            background: 0x000000,
            background2: 0x212021,
            background3: 0x424142,
            foreground: 0xFFFFFF,
            foreground2: 0xFF0000,
            foreground3: 0x00FF00,
        }
    );
}

#[test]
fn theme_colors_follow_a_change() {
    let mut theme = sample();
    theme.set(ThemeSlot::Background, 0x001F);
    assert_eq!(web_demo::get_theme_colors(&theme).background, 0x0000FF);
}
