use starleds::color::{AtomicColor, RGB8};

#[test]
fn cell_starts_black() {
    assert_eq!(AtomicColor::new().get(), RGB8 { r: 0, g: 0, b: 0 });
    assert_eq!(RGB8::default(), RGB8 { r: 0, g: 0, b: 0 });
}

#[test]
fn cell_gives_back_what_was_set() {
    let cell = AtomicColor::new();
    let color = RGB8 { r: 0x12, g: 0xAB, b: 0xFF };
    cell.set(color);
    assert_eq!(cell.get(), color);
    cell.set(RGB8 { r: 255, g: 0, b: 1 });
    assert_eq!(cell.get(), RGB8 { r: 255, g: 0, b: 1 });
}

#[test]
fn cell_is_shared() {
    let cell = AtomicColor::new();
    let (one, other) = (&cell, &cell);
    one.set(RGB8 { r: 1, g: 2, b: 3 });
    assert_eq!(other.get(), RGB8 { r: 1, g: 2, b: 3 });
}

#[test]
fn words_hold_red_green_blue() {
    assert_eq!(RGB8 { r: 0x12, g: 0x34, b: 0x56 }.to_word(), 0x0012_3456);
    assert_eq!(RGB8::from_word(0x0012_3456), RGB8 { r: 0x12, g: 0x34, b: 0x56 });
    assert_eq!(RGB8::from_word(0xFF12_3456), RGB8 { r: 0x12, g: 0x34, b: 0x56 });
    assert_eq!(RGB8::from_word(0xFF12_3456).to_word(), 0x0012_3456);
    assert_eq!(RGB8 { r: 255, g: 255, b: 255 }.to_word(), 0x00FF_FFFF);
}
