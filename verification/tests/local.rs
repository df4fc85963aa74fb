use std::time::Duration;

use trickle::interval::sanitize_interval_ms;
use trickle::status_bar::{status_bar_text, PowerReadings, StatusBarItem};

#[test]
fn update_interval_is_clamped_to_safe_bounds() {
    assert_eq!(sanitize_interval_ms(1), Duration::from_millis(500));
    assert_eq!(
        sanitize_interval_ms(1_000_000),
        Duration::from_millis(60_000)
    );
    assert_eq!(sanitize_interval_ms(2_000), Duration::from_millis(2_000));
}

#[test]
fn tray_prefers_delivery_power_while_charging() {
    // An SMC sample with a charging status of 1.0: the machine is charging.
    let smc = PowerReadings {
        is_charging: true,
        delivery_rate: 31.5f32,
        system_total: 12.0f32,
        brightness: 0.0f32,
        heatpipe: 0.0f32,
    };
    assert_eq!(status_bar_text(&smc, &StatusBarItem::System, true), 31.5);
    assert_eq!(status_bar_text(&smc, &StatusBarItem::System, false), 12.0);
}
