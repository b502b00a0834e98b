use termsonic::capture::{
    choose_sample_rate, device_listing, device_name_matches, whole_frames, PREFERRED_SAMPLE_RATE,
};

#[test]
fn rates_near_44100_become_44100() {
    assert_eq!(PREFERRED_SAMPLE_RATE, 44100);
    assert_eq!(choose_sample_rate(44100), 44100);
    assert_eq!(choose_sample_rate(44999), 44100);
    assert_eq!(choose_sample_rate(43101), 44100);
}

#[test]
fn distant_rates_are_kept() {
    assert_eq!(choose_sample_rate(48000), 48000);
    assert_eq!(choose_sample_rate(45100), 45100);
    assert_eq!(choose_sample_rate(43100), 43100);
    assert_eq!(choose_sample_rate(8000), 8000);
}

#[test]
fn partial_frames_are_left_out() {
    assert_eq!(whole_frames(4, 2), 2);
    assert_eq!(whole_frames(5, 2), 2);
    assert_eq!(whole_frames(7, 1), 7);
    assert_eq!(whole_frames(2, 3), 0);
}

#[test]
fn device_names_match_by_substring_in_any_case() {
    assert!(device_name_matches("USB Audio Device", "usb"));
    assert!(device_name_matches("USB Audio Device", "AUDIO dev"));
    assert!(device_name_matches("Built-in Microphone", ""));
    assert!(!device_name_matches("Built-in Microphone", "usb"));
    assert!(!device_name_matches("Mic", "Microphone"));
}

#[test]
fn devices_are_listed_by_position() {
    let names = vec![Some("Mic".to_string()), None, Some("USB".to_string())];
    assert_eq!(device_listing(&names), vec!["  1. Mic", "  3. USB"]);
}

#[test]
fn device_numbers_past_nine_have_two_digits() {
    let mut names: Vec<Option<String>> = vec![None; 11];
    names.push(Some("Line In".to_string()));
    assert_eq!(device_listing(&names), vec!["  12. Line In"]);
}

#[test]
fn no_readable_device_gives_one_line() {
    assert_eq!(device_listing(&Vec::new()), vec!["  No input devices found"]);
    assert_eq!(device_listing(&vec![None, None]), vec!["  No input devices found"]);
}
