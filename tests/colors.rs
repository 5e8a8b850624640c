use marlin::colors::{Color, ColorError};

fn rgba(r: u32, g: u32, b: u32, a: u32) -> Color {
    Color::with_alpha(r, g, b, a).unwrap()
}

#[test]
fn new_is_opaque() {
    let c = Color::new(235, 64, 52).unwrap();
    assert_eq!(c.as_slice(), &[235, 64, 52, 255]);
}

#[test]
fn with_alpha_keeps_all_channels() {
    let c = rgba(1, 2, 3, 4);
    assert_eq!(c.as_slice(), &[1, 2, 3, 4]);
}

#[test]
fn channels_may_reach_255() {
    let c = rgba(255, 255, 255, 255);
    assert_eq!(c.as_slice(), &[255, 255, 255, 255]);
    let black = rgba(0, 0, 0, 0);
    assert_eq!(black.as_slice(), &[0, 0, 0, 0]);
}

#[test]
fn channel_above_255_is_rejected() {
    assert_eq!(Color::with_alpha(256, 0, 0, 0), Err(ColorError::ChannelOutOfBounds));
    assert_eq!(Color::with_alpha(0, 256, 0, 0), Err(ColorError::ChannelOutOfBounds));
    assert_eq!(Color::with_alpha(0, 0, 256, 0), Err(ColorError::ChannelOutOfBounds));
    assert_eq!(Color::with_alpha(0, 0, 0, 256), Err(ColorError::ChannelOutOfBounds));
    assert_eq!(Color::new(0, 0, u32::MAX), Err(ColorError::ChannelOutOfBounds));
}

#[test]
fn mix_averages_each_channel_with_truncation() {
    let a = rgba(10, 20, 30, 255);
    let b = rgba(11, 21, 32, 0);
    let m = Color::mix(&[a, b]).unwrap();
    assert_eq!(m.as_slice(), &[10, 20, 31, 127]);
}

#[test]
fn mix_of_three_colors() {
    let m = Color::mix(&[rgba(255, 0, 0, 255), rgba(0, 255, 0, 255), rgba(0, 0, 255, 255)])
        .unwrap();
    assert_eq!(m.as_slice(), &[85, 85, 85, 255]);
}

#[test]
fn mix_of_nothing_fails() {
    assert_eq!(Color::mix(&[]), Err(ColorError::NothingToMix));
}

#[test]
fn mix_of_one_color_is_that_color() {
    let c = rgba(20, 152, 252, 200);
    assert_eq!(Color::mix(&[c]).unwrap(), c);
}

#[test]
fn mix_ignores_order() {
    let a = rgba(235, 64, 52, 255);
    let b = rgba(20, 152, 252, 255);
    let c = rgba(7, 0, 199, 3);
    let first = Color::mix(&[a, b, c]).unwrap();
    assert_eq!(Color::mix(&[c, a, b]).unwrap(), first);
    assert_eq!(Color::mix(&[b, c, a]).unwrap(), first);
    assert_eq!(Color::mix(&[c, b, a]).unwrap(), first);
}

#[test]
fn colors_compare_by_channels() {
    assert_eq!(rgba(1, 2, 3, 4), rgba(1, 2, 3, 4));
    assert_ne!(rgba(1, 2, 3, 4), rgba(1, 2, 3, 5));
}
