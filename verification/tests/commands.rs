use std::vec::Vec;

use evegfx::commands::command_word::{command_words_for_bytes_iter, CommandWord};
use evegfx::commands::options::{defaults, Button, FontRef, JPEGColorMode, LoadImage, Options, VideoPlayback, WidgetStyle};
use evegfx::commands::waiter::{check_space, SpaceCheck};

fn command_words_for_bytes(bytes: &[u8]) -> Vec<u32> {
    let mut it = command_words_for_bytes_iter(bytes);
    let mut word_vec: Vec<u32> = Vec::new();
    while let Some(w) = it.next() {
        word_vec.push(w.to_raw());
    }
    word_vec
}

#[test]
fn test_byte_to_command_iter_exact() {
    let bytes: [u8; 8] = [0x01, 0x02, 0x03, 0x04, 0x05, 0x06, 0x07, 0x08];
    let word_vec = command_words_for_bytes(&bytes[..]);
    assert_eq!(word_vec.as_slice(), [0x04030201, 0x08070605]);
}

#[test]
fn test_byte_to_command_iter_pad() {
    let bytes: [u8; 6] = [0x01, 0x02, 0x03, 0x04, 0x05, 0x06];
    let word_vec = command_words_for_bytes(&bytes[..]);
    assert_eq!(word_vec.as_slice(), [0x04030201, 0x00000605]);
}

#[test]
fn test_byte_to_command_iter_empty() {
    let bytes: [u8; 0] = [];
    let word_vec = command_words_for_bytes(&bytes[..]);
    let want: [u32; 0] = [];
    assert_eq!(word_vec.as_slice(), want);
}

#[test]
fn byte_to_command_iter_len_counts_padded_words() {
    let bytes: [u8; 9] = [1, 2, 3, 4, 5, 6, 7, 8, 9];
    let mut it = command_words_for_bytes_iter(&bytes[..]);
    assert_eq!(it.len(), 3);
    it.next();
    assert_eq!(it.len(), 2);
    it.next();
    it.next();
    assert_eq!(it.len(), 0);
    assert!(it.next().is_none());
}

#[test]
fn command_word_conversions() {
    assert_eq!(CommandWord::from(0x12345678u32).to_raw(), 0x12345678);
    assert_eq!(CommandWord::from(-1i32).to_raw(), 0xffffffff);
    assert_eq!(CommandWord::from((0x1234u16, 0x5678u16)).to_raw(), 0x56781234);
    assert_eq!(CommandWord::from((-1i16, 2i16)).to_raw(), 0xffffffff);
    assert_eq!(CommandWord::from((1i16, -2i16)).to_raw(), 0xfffe0001);
    assert_eq!(CommandWord::from((1u8, 2u8, 3u8, 4u8)).to_raw(), 0x04030201);
}

#[test]
fn test_video_playback() {
    assert_eq!(VideoPlayback::new().to_raw(), 0b00000000000000000000000000000000);
    assert_eq!(VideoPlayback::new().fullscreen().to_raw(), 0b00000000000000000000000000001000);
    assert_eq!(VideoPlayback::new().no_tear().to_raw(), 0b00000000000000000000000000000100);
    assert_eq!(VideoPlayback::new().decode_audio().to_raw(), 0b00000000000000000000000000100000);
    assert_eq!(VideoPlayback::new().decode_audio().fullscreen().to_raw(), 0b00000000000000000000000000101000);
}

#[test]
fn load_image_and_button_options() {
    let li: LoadImage = defaults();
    assert_eq!(li.jpeg_color_mode(JPEGColorMode::Monochrome).to_raw(), 1);
    assert_eq!(li.jpeg_color_mode(JPEGColorMode::Monochrome).jpeg_color_mode(JPEGColorMode::RGB565).to_raw(), 0);
    assert_eq!(li.no_display_list().scale_to_screen().to_raw(), 2 | 8);
    let b = Button::new();
    assert_eq!(b.style(WidgetStyle::Flat).to_raw(), 256);
    assert_eq!(b.style(WidgetStyle::Flat).style(WidgetStyle::ThreeD).to_raw(), 0);
}

#[test]
fn font_ref_is_taken_modulo_32() {
    assert_eq!(FontRef::new_raw(5).to_raw(), 5);
    assert_eq!(FontRef::new_raw(37).to_raw(), 5);
    assert_eq!(FontRef::new_raw(255).to_raw(), 31);
}

#[test]
fn space_check_decides_wait() {
    assert_eq!(check_space(16, 8), SpaceCheck::Ready(16));
    assert_eq!(check_space(4, 8), SpaceCheck::NotYet);
    assert_eq!(check_space(6, 2), SpaceCheck::Fault);
}
