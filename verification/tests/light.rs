use starleds::color::{AtomicColor, RGB8};
use starleds::gamma::{corrected, corrected_color, GAMMA};
use starleds::light::{requested_color, xy_brightness, LightRequest};
use starleds::mqtt::{handle, light_state_topic, react, LastWill, Message, Reaction};

fn grey(v: u8) -> RGB8 {
    RGB8 { r: v, g: v, b: v }
}

#[test]
fn gamma_table_has_its_values() {
    assert_eq!(corrected(0), 0);
    assert_eq!(corrected(1), 13);
    assert_eq!(corrected(76), 148);
    assert_eq!(corrected(128), 188);
    assert_eq!(corrected(255), 255);
    assert_eq!(corrected_color(2, 3, 4), RGB8 { r: 22, g: 28, b: 34 });
}

#[test]
fn gamma_table_follows_the_srgb_curve() {
    for level in 0..=255u8 {
        let linear = level as f64 / 255.0;
        let curve = if linear <= 0.0031308 {
            12.92 * linear
        } else {
            1.055 * linear.powf(1.0 / 2.4) - 0.055
        };
        assert!((corrected(level) as f64 - 255.0 * curve).abs() < 1.0);
    }
}

#[test]
fn gamma_table_rises() {
    assert!(GAMMA.windows(2).all(|pair| pair[0] <= pair[1]));
    assert!(GAMMA[1..].iter().all(|channel| *channel > 0));
}

#[test]
fn xy_levels_are_corrected() {
    let color = requested_color(LightRequest::Xy { r: 255, g: 0, b: 128 });
    assert_eq!(color, Some(RGB8 { r: 255, g: 0, b: 188 }));
    let dark = requested_color(LightRequest::Xy { r: 0, g: 0, b: 0 });
    assert_eq!(dark, Some(grey(0)));
}

#[test]
fn hues_are_converted() {
    let color = requested_color(LightRequest::Hs { hue: 89, sat: 230, brightness: Some(42) });
    assert_eq!(color, Some(RGB8 { r: 4, g: 42, b: 7 }));
    let red = requested_color(LightRequest::Hs { hue: 0, sat: 255, brightness: None });
    assert_eq!(red, Some(RGB8 { r: 255, g: 0, b: 0 }));
}

#[test]
fn hues_follow_their_formula() {
    for hue in 0..=255u8 {
        for sat in (0..=255u8).step_by(5) {
            for val in [0u8, 1, 2, 42, 100, 128, 200, 254, 255] {
                let (h, s, v) = (hue as u32, sat as u32, val as u32);
                let moved = h * 2 % 85 * 3;
                let low = v * (255 - s) / 255;
                let falling = v * (255 - s * moved / 255) / 255;
                let rising = v * (255 - s * (255 - moved) / 255) / 255;
                let (r, g, b) = match hue {
                    0..=42 | 255 => (v, rising, low),
                    43..=84 => (falling, v, low),
                    85..=127 => (low, v, rising),
                    128..=169 => (low, falling, v),
                    170..=212 => (rising, low, v),
                    213..=254 => (v, low, falling),
                };
                let color = requested_color(LightRequest::Hs { hue, sat, brightness: Some(val) });
                assert_eq!(color, Some(RGB8 { r: r as u8, g: g as u8, b: b as u8 }));
            }
        }
    }
}

#[test]
fn hue_at_no_brightness_is_black() {
    for hue in 0..=255u8 {
        let off = requested_color(LightRequest::Hs { hue, sat: 200, brightness: Some(0) });
        assert_eq!(off, Some(grey(0)));
    }
}

#[test]
fn hue_without_saturation_is_grey() {
    for hue in 0..=255u8 {
        let pale = requested_color(LightRequest::Hs { hue, sat: 0, brightness: Some(77) });
        assert_eq!(pale, requested_color(LightRequest::White { brightness: Some(77) }));
        assert_eq!(pale, Some(grey(77)));
    }
}

#[test]
fn white_without_brightness_is_off() {
    assert_eq!(requested_color(LightRequest::White { brightness: None }), Some(grey(0)));
    assert_eq!(requested_color(LightRequest::White { brightness: Some(200) }), Some(grey(200)));
}

#[test]
fn unsupported_colors_change_nothing() {
    assert_eq!(requested_color(LightRequest::Unsupported), None);
}

#[test]
fn xy_brightness_is_at_most_full() {
    assert_eq!(xy_brightness(None), 254);
    assert_eq!(xy_brightness(Some(0)), 0);
    assert_eq!(xy_brightness(Some(253)), 253);
    assert_eq!(xy_brightness(Some(255)), 254);
}

#[test]
fn messages_lead_to_reactions() {
    let white = Message::Light(LightRequest::White { brightness: Some(3) });
    assert_eq!(react(Message::Connected), Reaction::Ignore);
    assert_eq!(react(Message::Disconnected), Reaction::Fail);
    assert_eq!(react(white), Reaction::Show(grey(3)));
    assert_eq!(react(Message::Light(LightRequest::Unsupported)), Reaction::Ignore);
    assert_eq!(react(Message::Unreadable), Reaction::Ignore);
    assert_eq!(react(Message::OtherTopic), Reaction::Ignore);
}

#[test]
fn handled_messages_set_the_color() {
    let cell = AtomicColor::new();
    cell.set(grey(50));
    for message in [
        Message::Connected,
        Message::Light(LightRequest::Unsupported),
        Message::Unreadable,
        Message::OtherTopic,
    ] {
        assert!(handle(message, &cell));
        assert_eq!(cell.get(), grey(50));
    }
    assert!(handle(Message::Light(LightRequest::White { brightness: Some(3) }), &cell));
    assert_eq!(cell.get(), grey(3));
    assert!(!handle(Message::Disconnected, &cell));
    assert_eq!(cell.get(), grey(3));
}

#[test]
fn texts_over_mqtt() {
    assert_eq!(LastWill.topic(), "tanuki/entities/starleds/$meta/status");
    assert_eq!(LastWill.payload(), "offline");
    assert_eq!(light_state_topic(), "tanuki/entities/south_lamp/tanuki.light/state");
}
