use termsonic::schedule::{
    clamp_fps, frame_interval_ms, is_quit_key, overran, remaining_sleep, tick_action, KeyInput,
    TickAction, BACKOFF_MS, TARGET_INTERVAL_MS,
};

#[test]
fn missing_frame_backs_off_five_milliseconds() {
    assert_eq!(tick_action(true), TickAction::Publish);
    assert_eq!(tick_action(false), TickAction::Backoff(5));
    assert_eq!(BACKOFF_MS, 5);
}

#[test]
fn sleep_fills_the_rest_of_the_tick() {
    assert_eq!(TARGET_INTERVAL_MS, 16);
    assert_eq!(remaining_sleep(4, 16), 12);
    assert_eq!(remaining_sleep(0, 16), 16);
    assert_eq!(remaining_sleep(16, 16), 0);
    assert_eq!(remaining_sleep(40, 16), 0);
    assert!(!overran(15, 16));
    assert!(overran(16, 16));
}

#[test]
fn render_rate_is_clamped() {
    assert_eq!(clamp_fps(10), 30);
    assert_eq!(clamp_fps(45), 45);
    assert_eq!(clamp_fps(120), 60);
    assert_eq!(frame_interval_ms(60), 16);
    assert_eq!(frame_interval_ms(30), 33);
}

#[test]
fn quit_keys() {
    assert!(is_quit_key(KeyInput::Char('q', false)));
    assert!(is_quit_key(KeyInput::Esc));
    assert!(is_quit_key(KeyInput::Char('c', true)));
    assert!(!is_quit_key(KeyInput::Char('c', false)));
    assert!(!is_quit_key(KeyInput::Char('x', true)));
    assert!(!is_quit_key(KeyInput::Other));
}
