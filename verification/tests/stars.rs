use core::ops::ControlFlow;

use starleds::color::{AtomicColor, RGB8};
use starleds::patterns::stars::{mul_u8, Star, Stars, NUM_STARS};
use starleds::patterns::Pattern;
use starleds::startup::{dark_strip, LEDS};

const BLACK: RGB8 = RGB8 { r: 0, g: 0, b: 0 };
const WHITE: RGB8 = RGB8 { r: 255, g: 255, b: 255 };

fn star(index: usize, value: u8, speed: i8, max: u8, increasing: bool) -> Star {
    Star { index, value, speed, max, increasing, color: WHITE }
}

#[test]
fn mul_rounds_to_nearest() {
    assert_eq!(mul_u8(200, 100), 78);
    assert_eq!(mul_u8(255, 255), 255);
    assert_eq!(mul_u8(1, 127), 0);
    assert_eq!(mul_u8(1, 128), 1);
    for a in 0..=255u8 {
        assert_eq!(mul_u8(a, 255), a);
        assert_eq!(mul_u8(a, 0), 0);
        for b in 0..=255u8 {
            assert_eq!(mul_u8(a, b), mul_u8(b, a));
            assert!(mul_u8(a, b) <= a.min(b));
            let exact = a as f64 * b as f64 / 255.0;
            assert_eq!(mul_u8(a, b) as f64, exact.round());
        }
    }
}

#[test]
fn star_brightens_turns_and_fades() {
    let mut s = star(3, 190, 7, 200, true);
    assert_eq!(s.update(), ControlFlow::Continue(()));
    assert_eq!((s.value, s.increasing), (197, true));
    assert_eq!(s.update(), ControlFlow::Continue(()));
    assert_eq!((s.value, s.increasing), (200, false));
    assert_eq!(s.update(), ControlFlow::Continue(()));
    assert_eq!((s.value, s.increasing), (193, false));
    assert_eq!((s.index, s.speed, s.max, s.color), (3, 7, 200, WHITE));
}

#[test]
fn star_burns_out() {
    let mut s = star(3, 7, 7, 200, false);
    assert_eq!(s.update(), ControlFlow::Break(()));
    assert_eq!(s.value, 0);
    let mut s = star(3, 8, 7, 200, false);
    assert_eq!(s.update(), ControlFlow::Continue(()));
    assert_eq!(s.value, 1);
    assert_eq!(s.update(), ControlFlow::Break(()));
}

#[test]
fn star_brightness_does_not_overflow() {
    let mut s = star(0, 250, 7, 255, true);
    assert_eq!(s.update(), ControlFlow::Continue(()));
    assert_eq!((s.value, s.increasing), (255, false));
    let mut s = star(0, 10, -1, 254, true);
    assert_eq!(s.update(), ControlFlow::Continue(()));
    assert_eq!((s.value, s.increasing), (254, false));
}

#[test]
fn star_lives_twice_its_rise_time() {
    for speed in 2..8i8 {
        for max in 200..255u8 {
            let mut s = star(0, 0, speed, max, true);
            let mut frames = 1;
            while s.update() == ControlFlow::Continue(()) {
                frames += 1;
            }
            let rise = (max as u32 + speed as u32 - 1) / speed as u32;
            assert_eq!(frames, 2 * rise);
            assert!((58..=254).contains(&frames));
        }
    }
}

#[test]
fn shine_draws_on_its_own_led() {
    let mut colors = [WHITE; 3];
    let mut s = Star { color: RGB8 { r: 200, g: 100, b: 0 }, ..star(1, 95, 5, 200, true) };
    assert!(s.shine(&mut colors));
    assert_eq!(colors, [WHITE, RGB8 { r: 78, g: 39, b: 0 }, WHITE]);
    let mut s = star(2, 3, 5, 200, false);
    assert!(!s.shine(&mut colors));
    assert_eq!(colors[2], BLACK);
}

#[test]
fn sweep_draws_each_star_and_drops_the_burnt_out() {
    let cell = AtomicColor::new();
    let mut stars = Stars::new(0, &cell);
    stars.place_star(4, 2, 200, WHITE);
    stars.place_star(2, 7, 200, WHITE);
    stars.place_star(0, 50, 100, RGB8 { r: 255, g: 0, b: 0 });
    assert!(stars.is_taken(4) && stars.is_taken(2) && stars.is_taken(0));
    assert!(!stars.is_taken(1) && !stars.is_taken(3));
    let grey = |v: u8| RGB8 { r: v, g: v, b: v };
    let mut colors = [grey(9); 5];
    stars.sweep(&mut colors);
    let red = |v: u8| RGB8 { r: v, g: 0, b: 0 };
    assert_eq!(colors, [red(50), grey(9), grey(7), grey(9), grey(2)]);
    stars.sweep(&mut colors);
    assert_eq!(colors, [red(100), grey(9), grey(14), grey(9), grey(4)]);
    stars.sweep(&mut colors);
    assert_eq!(colors, [red(50), grey(9), grey(21), grey(9), grey(6)]);
    stars.sweep(&mut colors);
    assert_eq!(colors, [BLACK, grey(9), grey(28), grey(9), grey(8)]);
    assert!(stars.is_taken(4) && stars.is_taken(2) && !stars.is_taken(0));
}

#[test]
fn place_star_leaves_a_taken_led_alone() {
    let cell = AtomicColor::new();
    let mut stars = Stars::new(0, &cell);
    stars.place_star(1, 3, 200, WHITE);
    stars.place_star(1, 7, 250, RGB8 { r: 255, g: 0, b: 0 });
    let mut colors = [BLACK; 2];
    stars.sweep(&mut colors);
    assert_eq!(colors, [BLACK, RGB8 { r: 3, g: 3, b: 3 }]);
}

#[test]
fn no_more_stars_than_there_is_room_for() {
    let cell = AtomicColor::new();
    let mut stars = Stars::new(0, &cell);
    for i in 0..NUM_STARS + 3 {
        stars.place_star(i, 2, 200, WHITE);
    }
    assert!(stars.is_taken(NUM_STARS - 1));
    assert!(!stars.is_taken(NUM_STARS));
    stars.add_star(1000);
    let taken = (0..1000).filter(|i| stars.is_taken(*i)).count();
    assert_eq!(taken, NUM_STARS);
    let mut colors = [BLACK; 1000];
    stars.update(&mut colors);
    assert_eq!((0..1000).filter(|i| stars.is_taken(*i)).count(), NUM_STARS);
}

#[test]
fn add_star_draws_from_the_whole_strip() {
    let cell = AtomicColor::new();
    let mut hit = [false; 4];
    for seed in 0..100 {
        let mut stars = Stars::new(seed, &cell);
        stars.add_star(4);
        let led = (0..1000).find(|i| stars.is_taken(*i)).unwrap();
        hit[led] = true;
    }
    assert_eq!(hit, [true; 4]);
}

#[test]
fn add_star_leaves_a_taken_led_alone() {
    let cell = AtomicColor::new();
    let mut stars = Stars::new(7, &cell);
    stars.place_star(0, 2, 200, WHITE);
    stars.add_star(1);
    let mut colors = [BLACK; 1];
    for _ in 0..199 {
        stars.sweep(&mut colors);
    }
    assert!(stars.is_taken(0));
    stars.sweep(&mut colors);
    assert!(!stars.is_taken(0));
}

#[test]
fn first_frame_lights_one_star_in_the_chosen_color() {
    let cell = AtomicColor::new();
    cell.set(RGB8 { r: 255, g: 0, b: 0 });
    let mut stars = Stars::new(42, &cell);
    let mut colors = dark_strip();
    stars.update(&mut colors);
    let lit: Vec<RGB8> = colors.iter().copied().filter(|c| *c != BLACK).collect();
    assert_eq!(lit.len(), 1);
    assert!((2..8).contains(&lit[0].r));
    assert_eq!((lit[0].g, lit[0].b), (0, 0));
}

#[test]
fn leds_without_a_star_stay_dark() {
    let cell = AtomicColor::new();
    cell.set(WHITE);
    for seed in 0..8 {
        let mut stars = Stars::new(seed, &cell);
        let mut colors = dark_strip();
        let mut most = 0;
        for _ in 0..2000 {
            stars.update(&mut colors);
            for led in 0..LEDS {
                assert_eq!(stars.is_taken(led), colors[led] != BLACK);
            }
            let shining = (0..LEDS).filter(|led| stars.is_taken(*led)).count();
            assert!(shining <= NUM_STARS);
            most = most.max(shining);
        }
        assert_eq!(most, NUM_STARS);
    }
}

#[test]
fn new_stars_take_the_color_of_the_moment() {
    let cell = AtomicColor::new();
    cell.set(RGB8 { r: 255, g: 0, b: 0 });
    let mut stars = Stars::new(3, &cell);
    let mut colors = dark_strip();
    for _ in 0..20 {
        stars.update(&mut colors);
    }
    assert!(colors.iter().all(|c| c.b == 0));
    cell.set(RGB8 { r: 0, g: 0, b: 255 });
    for _ in 0..300 {
        stars.update(&mut colors);
    }
    assert!(colors.iter().all(|c| c.r == 0));
    assert!(colors.iter().any(|c| c.b > 0));
}

#[test]
fn full_pattern_draws_no_random_number() {
    let cell = AtomicColor::new();
    let draws = |frames_while_full: usize| {
        let mut stars = Stars::new(5, &cell);
        for i in 0..NUM_STARS {
            stars.place_star(1000 + i, 1, 2, WHITE);
        }
        let mut colors = [BLACK; 2000];
        for _ in 0..frames_while_full {
            stars.update(&mut colors);
        }
        for _ in frames_while_full..4 {
            stars.sweep(&mut colors);
        }
        stars.add_star(1000);
        (0..1000).find(|i| stars.is_taken(*i))
    };
    assert!(draws(0).is_some());
    for frames in 1..=4 {
        assert_eq!(draws(frames), draws(0));
    }
}

#[test]
fn frames_are_forty_milliseconds_apart() {
    let cell = AtomicColor::new();
    assert_eq!(Stars::new(0, &cell).update_rate(), 40);
}

#[test]
fn speeds_and_peaks_are_drawn_from_their_ranges() {
    let cell = AtomicColor::new();
    cell.set(WHITE);
    let mut speeds = [false; 8];
    let mut peaks = [false; 256];
    for seed in 0..2000 {
        let mut stars = Stars::new(seed, &cell);
        stars.add_star(1);
        let mut colors = [BLACK; 1];
        stars.sweep(&mut colors);
        speeds[colors[0].r as usize] = true;
        let mut peak = 0;
        while stars.is_taken(0) {
            peak = peak.max(colors[0].r);
            stars.sweep(&mut colors);
        }
        peaks[peak as usize] = true;
    }
    for speed in 0..8 {
        assert_eq!(speeds[speed], speed >= 2);
    }
    for peak in 0..256 {
        assert_eq!(peaks[peak], (200..255).contains(&peak));
    }
}

#[test]
fn seeds_make_a_difference() {
    let cell = AtomicColor::new();
    cell.set(WHITE);
    let picture = |seed: u64| {
        let mut stars = Stars::new(seed, &cell);
        let mut colors = dark_strip();
        for _ in 0..50 {
            stars.update(&mut colors);
        }
        colors
    };
    assert_eq!(picture(1), picture(1));
    assert_ne!(picture(1), picture(2));
}
