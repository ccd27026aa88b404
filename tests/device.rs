use elk_led_controller::device::{
    after_failure, brightness_frame, color_frame, color_temp_setting, disable_effect_frame,
    effect_frame, effect_speed_frame, generic_frame, plan_apply, rate_limit_wait, schedule_frame,
    static_frames, time_frame, ApplyPlan, RetryAction,
};
use elk_led_controller::{AudioColor, DeviceType, Effects};

#[test]
fn device_type_from_advertised_name() {
    assert_eq!(DeviceType::from_name("ELK-BLEDOM"), DeviceType::ElkBle);
    assert_eq!(DeviceType::from_name("LEDBLE-1234"), DeviceType::LedBle);
    assert_eq!(DeviceType::from_name("MELK-OA10"), DeviceType::Melk);
    assert_eq!(DeviceType::from_name("ELK-BULB2"), DeviceType::ElkBulb);
    assert_eq!(DeviceType::from_name("ELK-LAMPL"), DeviceType::ElkLampl);
    assert_eq!(DeviceType::from_name("elk-bledom"), DeviceType::Unknown);
    assert_eq!(DeviceType::from_name("ELK"), DeviceType::Unknown);
    assert_eq!(DeviceType::from_name(""), DeviceType::Unknown);
}

#[test]
fn device_type_names() {
    assert_eq!(DeviceType::ElkBle.name(), "ELK-BLE");
    assert_eq!(DeviceType::LedBle.name(), "LEDBLE");
    assert_eq!(DeviceType::Melk.name(), "MELK");
    assert_eq!(DeviceType::ElkBulb.name(), "ELK-BULB");
    assert_eq!(DeviceType::ElkLampl.name(), "ELK-LAMPL");
    assert_eq!(DeviceType::Unknown.name(), "Unknown");
    assert!(DeviceType::ElkBulb.syncs_time());
    assert!(!DeviceType::Melk.syncs_time());
}

#[test]
fn device_configs() {
    let elk = DeviceType::ElkBle.config();
    assert_eq!(elk.write_uuid, 0x0000fff3_0000_1000_8000_00805f9b34fb);
    assert_eq!(elk.turn_on_cmd, [0x7e, 0x00, 0x04, 0xf0, 0x00, 0x01, 0xff, 0x00, 0xef]);
    assert_eq!(elk.turn_off_cmd, [0x7e, 0x00, 0x04, 0x00, 0x00, 0x00, 0xff, 0x00, 0xef]);
    let led = DeviceType::LedBle.config();
    assert_eq!(led.write_uuid, 0x0000ffe1_0000_1000_8000_00805f9b34fb);
    assert_eq!(led.read_uuid, 0x0000ffe2_0000_1000_8000_00805f9b34fb);
    assert_eq!(led.turn_on_cmd, [0x7e, 0x00, 0x04, 0x01, 0x00, 0x00, 0x00, 0x00, 0xef]);
    assert_eq!((led.min_color_temp_k, led.max_color_temp_k, led.command_delay), (2700, 6500, 15));
}

#[test]
fn command_frames() {
    assert_eq!(color_frame(255, 1, 2), [0x7e, 0x00, 0x05, 0x03, 255, 1, 2, 0x00, 0xef]);
    assert_eq!(disable_effect_frame(), [0x7e, 0x00, 0x05, 0x01, 0, 0, 0, 0x00, 0xef]);
    assert_eq!(brightness_frame(80), [0x7e, 0x00, 0x01, 80, 0, 0, 0, 0x00, 0xef]);
    assert_eq!(brightness_frame(150), [0x7e, 0x00, 0x01, 100, 0, 0, 0, 0x00, 0xef]);
    assert_eq!(effect_frame(0x88), [0x7e, 0x00, 0x03, 0x88, 0x03, 0, 0, 0x00, 0xef]);
    assert_eq!(effect_speed_frame(101), [0x7e, 0x00, 0x02, 100, 0, 0, 0, 0x00, 0xef]);
    assert_eq!(generic_frame(9, 8, 7, 6, 5), [0x7e, 0x00, 9, 8, 7, 6, 5, 0x00, 0xef]);
}

#[test]
fn color_temperature_frames() {
    let c = DeviceType::ElkBle.config();
    let (t, f) = color_temp_setting(&c, 4000);
    assert_eq!(t, 4000);
    assert_eq!(f, [0x7e, 0x00, 0x05, 0x02, 34, 66, 0x00, 0x00, 0xef]);
    let (t, f) = color_temp_setting(&c, 1000);
    assert_eq!(t, 2700);
    assert_eq!(f[4], 0);
    assert_eq!(f[5], 100);
    let (t, f) = color_temp_setting(&c, 9000);
    assert_eq!(t, 6500);
    assert_eq!(f[4], 100);
    assert_eq!(f[5], 0);
}

#[test]
fn schedule_and_time_frames() {
    assert_eq!(schedule_frame(0x1f, 8, 30, true, false), [0x7e, 0x00, 0x82, 8, 30, 0, 0, 0x9f, 0xef]);
    assert_eq!(schedule_frame(0x60, 30, 75, false, true), [0x7e, 0x00, 0x82, 23, 59, 0, 1, 0x60, 0xef]);
    assert_eq!(schedule_frame(0x90, 8, 30, true, false)[7], 0x90);
    assert_eq!(schedule_frame(0x90, 8, 30, false, false)[7], 0x90);
    assert_eq!(time_frame(12, 34, 56, 3), [0x7e, 0x00, 0x83, 12, 34, 56, 3, 0x00, 0xef]);
    assert_eq!(time_frame(99, 99, 99, 0), [0x7e, 0x00, 0x83, 23, 59, 59, 1, 0x00, 0xef]);
    assert_eq!(time_frame(0, 0, 0, 9)[6], 7);
}

#[test]
fn apply_plan_uses_effect_or_color() {
    let with_effect = AudioColor { r: 1, g: 2, b: 3, brightness: 40, effect: Some(0x8b) };
    assert_eq!(
        plan_apply(&with_effect, false),
        ApplyPlan { power_on: true, effect: Some(0x8b), color: None, brightness: 40 }
    );
    let plain = AudioColor { r: 1, g: 2, b: 3, brightness: 70, effect: None };
    assert_eq!(
        plan_apply(&plain, true),
        ApplyPlan { power_on: false, effect: None, color: Some((1, 2, 3)), brightness: 70 }
    );
}

#[test]
fn dispatcher_retries_then_gives_up() {
    assert_eq!(after_failure(1), RetryAction::Retry(300));
    assert_eq!(after_failure(2), RetryAction::Retry(300));
    assert_eq!(after_failure(3), RetryAction::GiveUp);
    assert_eq!(rate_limit_wait(5, 15), 10);
    assert_eq!(rate_limit_wait(15, 15), 0);
    assert_eq!(rate_limit_wait(400, 15), 0);
}

#[test]
fn effect_table() {
    let e = Effects::standard();
    assert_eq!(e.jump_red_green_blue, 0x87);
    assert_eq!(e.jump_red_green_blue_yellow_cyan_magenta_white, 0x88);
    assert_eq!(e.crossfade_red, 0x8b);
    assert_eq!(e.crossfade_red_green_blue, 0x89);
    assert_eq!(e.crossfade_red_green_blue_yellow_cyan_magenta_white, 0x8a);
    assert_eq!(e.blink_red_green_blue_yellow_cyan_magenta_white, 0x95);
    assert_eq!(e.blink_white, 0x9c);
}

#[test]
fn static_settings_end_an_active_effect_first() {
    let f = color_frame(1, 2, 3);
    assert_eq!(static_frames(false, f), vec![f]);
    assert_eq!(static_frames(true, f), vec![disable_effect_frame(), f]);
}
