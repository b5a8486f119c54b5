//! Tests of the fixed name sets and the local value validation.

use steelseries_sonar::{
    channel_names, streamer_slider_names, valid_channel_name, valid_slider_name,
};
use steelseries_sonar::decimal::{balance_text_in_range, volume_text_in_range};

#[test]
fn test_channel_names() {
    let names = channel_names();
    assert!(names.contains(&"master"));
    assert!(names.contains(&"game"));
    assert!(names.contains(&"chatRender"));
    assert!(names.contains(&"media"));
    assert!(names.contains(&"aux"));
    assert!(names.contains(&"chatCapture"));
}

#[test]
fn test_streamer_slider_names() {
    let names = streamer_slider_names();
    assert!(names.contains(&"streaming"));
    assert!(names.contains(&"monitoring"));
}

#[test]
fn test_constants() {
    let channels = channel_names();
    assert!(channels.contains(&"master"));
    assert!(channels.contains(&"game"));
    assert!(channels.contains(&"chatRender"));
    assert!(channels.contains(&"media"));
    assert!(channels.contains(&"aux"));
    assert!(channels.contains(&"chatCapture"));
    assert_eq!(channels.len(), 6);
    let sliders = streamer_slider_names();
    assert!(sliders.contains(&"streaming"));
    assert!(sliders.contains(&"monitoring"));
    assert_eq!(sliders.len(), 2);
}

#[test]
fn test_valid_channel_name() {
    for name in channel_names() {
        assert!(valid_channel_name(name));
    }
    assert!(!valid_channel_name("invalid_channel"));
    assert!(!valid_channel_name("Master"));
    assert!(!valid_channel_name(""));
}

#[test]
fn test_valid_slider_name() {
    assert!(valid_slider_name("streaming"));
    assert!(valid_slider_name("monitoring"));
    assert!(!valid_slider_name("stream"));
    assert!(!valid_slider_name(""));
}

#[test]
fn test_volume_text_in_range() {
    assert!(volume_text_in_range("0"));
    assert!(volume_text_in_range("1"));
    assert!(volume_text_in_range("0.0"));
    assert!(volume_text_in_range("1.0"));
    assert!(volume_text_in_range("0.5"));
    assert!(volume_text_in_range("0.25"));
    assert!(volume_text_in_range("1.000"));
    assert!(volume_text_in_range("0.999"));
    assert!(volume_text_in_range("-0.0"));
    assert!(volume_text_in_range("00.5"));
}

#[test]
fn test_volume_text_out_of_range() {
    assert!(!volume_text_in_range("1.5"));
    assert!(!volume_text_in_range("-0.1"));
    assert!(!volume_text_in_range("1.001"));
    assert!(!volume_text_in_range("2"));
    assert!(!volume_text_in_range("-1"));
    assert!(!volume_text_in_range("10"));
    assert!(!volume_text_in_range("11"));
}

#[test]
fn test_volume_text_malformed() {
    assert!(!volume_text_in_range(""));
    assert!(!volume_text_in_range("-"));
    assert!(!volume_text_in_range("."));
    assert!(!volume_text_in_range(".5"));
    assert!(!volume_text_in_range("5."));
    assert!(!volume_text_in_range("0.5.0"));
    assert!(!volume_text_in_range("abc"));
    assert!(!volume_text_in_range("null"));
    assert!(!volume_text_in_range("NaN"));
    assert!(!volume_text_in_range("inf"));
    assert!(!volume_text_in_range("0x1"));
    assert!(!volume_text_in_range("0.5 "));
}

#[test]
fn test_balance_text_in_range() {
    assert!(balance_text_in_range("0"));
    assert!(balance_text_in_range("1"));
    assert!(balance_text_in_range("-1"));
    assert!(balance_text_in_range("0.5"));
    assert!(balance_text_in_range("-0.25"));
    assert!(balance_text_in_range("1.000"));
    assert!(balance_text_in_range("-1.000"));
    assert!(balance_text_in_range("-0.999"));
}

#[test]
fn test_balance_text_out_of_range() {
    assert!(!balance_text_in_range("2.0"));
    assert!(!balance_text_in_range("-2.0"));
    assert!(!balance_text_in_range("1.001"));
    assert!(!balance_text_in_range("-1.001"));
    assert!(!balance_text_in_range("null"));
    assert!(!balance_text_in_range(""));
}
