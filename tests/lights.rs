use tracker_wire::lights::{battery_lights, on_battery_report, BatteryLevel, PlayerLight};

use PlayerLight::{Blinking, Off, On};

#[test]
fn lights_per_level() {
    assert_eq!(battery_lights(BatteryLevel::Full), [On, On, On, On]);
    assert_eq!(battery_lights(BatteryLevel::Medium), [Off, On, On, On]);
    assert_eq!(battery_lights(BatteryLevel::Low), [Off, Off, On, On]);
    assert_eq!(battery_lights(BatteryLevel::Critical), [Off, Off, Off, Blinking]);
    assert_eq!(battery_lights(BatteryLevel::Empty), [Off, Off, Off, Blinking]);
}

#[test]
fn lights_only_on_change() {
    assert_eq!(on_battery_report(None, BatteryLevel::Low), Some([Off, Off, On, On]));
    assert_eq!(on_battery_report(Some(BatteryLevel::Low), BatteryLevel::Low), None);
    assert_eq!(
        on_battery_report(Some(BatteryLevel::Full), BatteryLevel::Medium),
        Some([Off, On, On, On])
    );
}
