//! Tests of the framebuffer's own interface: toggling, reading, clearing,
//! and the bounds checks; plus the decoder and the bit helpers.

use chip8::bits::AsBoolSlice;
use chip8::decode::{get_kk, get_n, get_nnn, get_x, get_y};
use chip8::display::Display;
use chip8::Error;

#[test]
fn toggle_reports_the_prior_state() {
    let mut d = Display::new();
    assert_eq!(d.set_pixel(3, 2), Ok(false));
    assert_eq!(d.read(3, 2), Ok(true));
    assert_eq!(d.set_pixel(3, 2), Ok(true));
    assert_eq!(d.read(3, 2), Ok(false));
}

#[test]
fn out_of_range_coordinates_are_rejected() {
    let mut d = Display::new();
    assert_eq!(d.set_pixel(64, 0), Err(Error::OutOfRangePixel));
    assert_eq!(d.set_pixel(0, 32), Err(Error::OutOfRangePixel));
    assert_eq!(d.read(64, 31), Err(Error::OutOfRangePixel));
    assert_eq!(d.read(63, 32), Err(Error::OutOfRangePixel));
    assert_eq!(d.set_pixel(63, 31), Ok(false));
}

#[test]
fn clear_turns_every_pixel_off() {
    let mut d = Display::new();
    d.set_pixel(5, 5).unwrap();
    d.set_pixel(0, 0).unwrap();
    d.clear();
    assert_eq!(d.read(5, 5), Ok(false));
    assert_eq!(d.read(0, 0), Ok(false));
}

#[test]
fn decoder_extracts_every_field() {
    assert_eq!(get_x(0xABCD), 0xB);
    assert_eq!(get_y(0xABCD), 0xC);
    assert_eq!(get_n(0xABCD), 0xD);
    assert_eq!(get_kk(0xABCD), 0xCD);
    assert_eq!(get_nnn(0xABCD), 0xBCD);
}

#[test]
fn byte_bits_come_most_significant_first() {
    let b: u8 = 0b1010_0001;
    assert_eq!(
        b.as_bools(),
        [true, false, true, false, false, false, false, true]
    );
    assert!(b.is_set(0b1000_0000));
    assert!(!b.is_set(0b0100_0000));
    assert!(b.is_set_n(0));
    assert!(!b.is_set_n(1));
    assert!(b.is_set_n(7));
}
