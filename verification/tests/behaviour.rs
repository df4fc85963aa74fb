use std::time::Duration;

use trickle::health::{BatteryHealthSample, HealthRecorder, HealthSnapshot};
use trickle::interval::{sanitize_interval_ms, MAX_INTERVAL_MS, MIN_INTERVAL_MS};
use trickle::sender::{
    initial_interval, plan_sample, sender_message_for, PreferenceEvent, SamplePlan, SenderAction,
    SenderConfig, SenderMessage,
};
use trickle::smc_retry::SmcRetry;
use trickle::status_bar::{status_bar_text, PowerReadings, StatusBarItem};
use trickle::tray::{
    menu_action, tray_action, MenuAction, MenuItem, MouseButton, MouseButtonState, TrayAction,
    TrayEvent,
};

fn readings(is_charging: bool) -> PowerReadings<f32> {
    PowerReadings {
        is_charging,
        delivery_rate: 40.0,
        system_total: 11.0,
        brightness: 2.5,
        heatpipe: 4.25,
    }
}

#[test]
fn interval_bounds_are_kept_exactly() {
    assert_eq!(sanitize_interval_ms(0), Duration::from_millis(MIN_INTERVAL_MS));
    assert_eq!(sanitize_interval_ms(499), Duration::from_millis(500));
    assert_eq!(sanitize_interval_ms(500), Duration::from_millis(500));
    assert_eq!(sanitize_interval_ms(501), Duration::from_millis(501));
    assert_eq!(sanitize_interval_ms(59_999), Duration::from_millis(59_999));
    assert_eq!(sanitize_interval_ms(60_000), Duration::from_millis(60_000));
    assert_eq!(sanitize_interval_ms(60_001), Duration::from_millis(MAX_INTERVAL_MS));
    assert_eq!(sanitize_interval_ms(86_400_000), Duration::from_millis(60_000));
    assert_eq!(sanitize_interval_ms(u64::MAX), Duration::from_millis(60_000));
}

#[test]
fn sanitizing_twice_changes_nothing() {
    for ms in [0u64, 1, 499, 500, 1234, 60_000, 60_001, u64::MAX] {
        let once = sanitize_interval_ms(ms);
        let twice = sanitize_interval_ms(once.as_millis() as u64);
        assert_eq!(once, twice);
    }
}

#[test]
fn status_bar_shows_selected_item_when_not_charging() {
    let r = readings(false);
    assert_eq!(status_bar_text(&r, &StatusBarItem::System, true), 11.0);
    assert_eq!(status_bar_text(&r, &StatusBarItem::Screen, true), 2.5);
    assert_eq!(status_bar_text(&r, &StatusBarItem::Heatpipe, true), 4.25);
    assert_eq!(status_bar_text(&r, &StatusBarItem::Heatpipe, false), 4.25);
}

#[test]
fn status_bar_shows_delivery_for_every_item_while_charging() {
    let r = readings(true);
    assert_eq!(status_bar_text(&r, &StatusBarItem::System, true), 40.0);
    assert_eq!(status_bar_text(&r, &StatusBarItem::Screen, true), 40.0);
    assert_eq!(status_bar_text(&r, &StatusBarItem::Heatpipe, true), 40.0);
    assert_eq!(status_bar_text(&r, &StatusBarItem::Screen, false), 2.5);
}

#[test]
fn startup_settings_fall_back_to_defaults() {
    assert_eq!(initial_interval(None), Duration::from_millis(2000));
    assert_eq!(initial_interval(Some(86_400_000)), Duration::from_millis(60_000));
    assert_eq!(initial_interval(Some(100)), Duration::from_millis(500));
    assert_eq!(initial_interval(Some(5000)), Duration::from_millis(5000));
    let c = SenderConfig::from_preferences(None, None);
    assert_eq!(c.status_bar_item, StatusBarItem::System);
    assert!(c.show_charging);
    let c = SenderConfig::from_preferences(Some(StatusBarItem::Heatpipe), Some(false));
    assert_eq!(c.status_bar_item, StatusBarItem::Heatpipe);
    assert!(!c.show_charging);
}

#[test]
fn messages_update_settings_and_publish() {
    let mut c = SenderConfig::from_preferences(None, None);
    assert!(matches!(c.handle_message(SenderMessage::ImmediateSend), SenderAction::EmitSample));
    assert_eq!(c, SenderConfig::from_preferences(None, None));

    let a = c.handle_message(SenderMessage::ChangeStatusBarItem(StatusBarItem::Screen));
    assert!(matches!(a, SenderAction::EmitSample));
    assert_eq!(c.status_bar_item, StatusBarItem::Screen);
    assert!(c.show_charging);

    let a = c.handle_message(SenderMessage::StatusBarShowCharging(false));
    assert!(matches!(a, SenderAction::EmitSample));
    assert_eq!(c.status_bar_item, StatusBarItem::Screen);
    assert!(!c.show_charging);
}

#[test]
fn interval_change_restarts_timer_with_sanitized_period() {
    let mut c = SenderConfig::from_preferences(Some(StatusBarItem::Screen), Some(false));
    let before = c;
    match c.handle_message(SenderMessage::ChangeInterval(Duration::from_secs(86_400))) {
        SenderAction::RestartTimer(p) => assert_eq!(p, Duration::from_millis(60_000)),
        other => panic!("unexpected {other:?}"),
    }
    match c.handle_message(SenderMessage::ChangeInterval(Duration::from_millis(10))) {
        SenderAction::RestartTimer(p) => assert_eq!(p, Duration::from_millis(500)),
        other => panic!("unexpected {other:?}"),
    }
    match c.handle_message(SenderMessage::ChangeInterval(Duration::from_millis(3_000))) {
        SenderAction::RestartTimer(p) => assert_eq!(p, Duration::from_millis(3_000)),
        other => panic!("unexpected {other:?}"),
    }
    assert_eq!(c, before);
}

#[test]
fn preference_events_map_to_messages() {
    match sender_message_for(PreferenceEvent::UpdateInterval(5000)) {
        Some(SenderMessage::ChangeInterval(d)) => assert_eq!(d, Duration::from_millis(5000)),
        other => panic!("unexpected {other:?}"),
    }
    assert!(matches!(
        sender_message_for(PreferenceEvent::StatusBarItem(StatusBarItem::Heatpipe)),
        Some(SenderMessage::ChangeStatusBarItem(StatusBarItem::Heatpipe))
    ));
    assert!(matches!(
        sender_message_for(PreferenceEvent::StatusBarShowCharging(true)),
        Some(SenderMessage::StatusBarShowCharging(true))
    ));
    assert!(sender_message_for(PreferenceEvent::Language("zh-CN".to_string())).is_none());
    assert!(sender_message_for(PreferenceEvent::Other).is_none());
}

#[test]
fn sample_plan_follows_available_sources() {
    assert_eq!(plan_sample(true, true), SamplePlan::Full { with_smc: true });
    assert_eq!(plan_sample(true, false), SamplePlan::Full { with_smc: false });
    assert_eq!(plan_sample(false, true), SamplePlan::SmcOnly);
    assert_eq!(plan_sample(false, false), SamplePlan::Nothing);
}

#[test]
fn smc_retry_waits_thirty_seconds() {
    let mut r = SmcRetry::new(1_000);
    assert!(!r.connect_due(false, 1_000));
    assert!(!r.connect_due(false, 30_999));
    assert!(r.connect_due(false, 31_000));
    assert!(!r.connect_due(true, 31_000));
    r.record_failure(31_000);
    assert!(!r.connect_due(false, 60_999));
    assert!(r.connect_due(false, 61_000));
}

fn sample(max: i32, design: i32, cycles: i32) -> BatteryHealthSample {
    BatteryHealthSample { max_capacity: max, design_capacity: design, cycle_count: cycles }
}

#[test]
fn health_is_written_once_per_day() {
    let mut h = HealthRecorder::new();
    let s = sample(6166, 6249, 120);
    assert_eq!(
        h.record_on(&s, "2026-09-16".to_string()),
        Some(HealthSnapshot { max_capacity: 6166, design_capacity: 6249, cycle_count: 120 })
    );
    assert_eq!(h.record_on(&s, "2026-09-16".to_string()), None);
    assert_eq!(h.record_on(&sample(6100, 6249, 121), "2026-09-16".to_string()), None);
    assert_eq!(
        h.record_on(&sample(6100, 6249, 121), "2026-09-17".to_string()),
        Some(HealthSnapshot { max_capacity: 6100, design_capacity: 6249, cycle_count: 121 })
    );
}

#[test]
fn health_skips_missing_capacities() {
    let mut h = HealthRecorder::new();
    assert_eq!(h.record_on(&sample(0, 6249, 1), "2026-09-16".to_string()), None);
    assert_eq!(h.record_on(&sample(6166, -1, 1), "2026-09-16".to_string()), None);
    // The failed reads did not use up the day.
    assert!(h.record_on(&sample(6166, 6249, 1), "2026-09-16".to_string()).is_some());
}

#[test]
fn health_sample_usability() {
    assert!(sample(1, 1, 0).is_usable());
    assert!(!sample(0, 6249, 3).is_usable());
    assert!(!sample(6166, 0, 3).is_usable());
    assert!(!sample(-5, -5, 3).is_usable());
}

#[test]
fn stored_status_bar_names() {
    assert_eq!(StatusBarItem::from_stored_name("system"), StatusBarItem::System);
    assert_eq!(StatusBarItem::from_stored_name("screen"), StatusBarItem::Screen);
    assert_eq!(StatusBarItem::from_stored_name("heatpipe"), StatusBarItem::Heatpipe);
    assert_eq!(StatusBarItem::from_stored_name("none"), StatusBarItem::System);
    assert_eq!(StatusBarItem::from_stored_name(""), StatusBarItem::System);
    assert_eq!(StatusBarItem::from_stored_name("Screen"), StatusBarItem::System);
}

#[test]
fn interval_beyond_64_bit_milliseconds_is_clamped_to_maximum() {
    let mut c = SenderConfig::from_preferences(None, None);
    // 2^64 + 1000 milliseconds.
    let huge = Duration::new(18_446_744_073_709_552, 616_000_000);
    assert_eq!(huge.as_millis(), (1u128 << 64) + 1000);
    match c.handle_message(SenderMessage::ChangeInterval(huge)) {
        SenderAction::RestartTimer(p) => assert_eq!(p, Duration::from_millis(60_000)),
        other => panic!("unexpected {other:?}"),
    }
    match c.handle_message(SenderMessage::ChangeInterval(Duration::MAX)) {
        SenderAction::RestartTimer(p) => assert_eq!(p, Duration::from_millis(60_000)),
        other => panic!("unexpected {other:?}"),
    }
    // A sub-millisecond remainder is dropped.
    match c.handle_message(SenderMessage::ChangeInterval(Duration::new(2, 500_400))) {
        SenderAction::RestartTimer(p) => assert_eq!(p, Duration::from_millis(2_000)),
        other => panic!("unexpected {other:?}"),
    }
}

#[test]
fn tray_clicks() {
    let left_up = TrayEvent::Click { button: MouseButton::Left, button_state: MouseButtonState::Up };
    let left_down = TrayEvent::Click { button: MouseButton::Left, button_state: MouseButtonState::Down };
    let right_down = TrayEvent::Click { button: MouseButton::Right, button_state: MouseButtonState::Down };
    let right_up = TrayEvent::Click { button: MouseButton::Right, button_state: MouseButtonState::Up };
    assert_eq!(tray_action(left_up, false), TrayAction::ShowPopover);
    assert_eq!(tray_action(left_up, true), TrayAction::HidePopover);
    assert_eq!(tray_action(left_down, false), TrayAction::Ignore);
    assert_eq!(tray_action(right_down, true), TrayAction::PopUpMenu);
    assert_eq!(tray_action(right_up, true), TrayAction::Ignore);
    assert_eq!(tray_action(TrayEvent::Other, false), TrayAction::Ignore);
}

#[test]
fn menu_items() {
    assert_eq!(menu_action(MenuItem::ShowWindow, false), MenuAction::RevealMainWindow);
    assert_eq!(menu_action(MenuItem::ShowWindow, true), MenuAction::Ignore);
    assert_eq!(menu_action(MenuItem::Quit, true), MenuAction::Quit);
    assert_eq!(menu_action(MenuItem::Unknown, false), MenuAction::Ignore);
}
