use rusty_razer_tray::device::Device;
use rusty_razer_tray::types::{Feature, LedId};

fn device_with(interfaces: &[(&str, &[&str])]) -> Device {
    let mut xml = String::from("<node>");
    for (iface, methods) in interfaces {
        xml.push_str(&format!("<interface name=\"{}\">", iface));
        for m in *methods {
            xml.push_str(&format!("<method name=\"{}\"/>", m));
        }
        xml.push_str("</interface>");
    }
    xml.push_str("</node>");
    Device::new(b"/org/razer/device/T".to_vec(), xml.as_bytes()).unwrap()
}

#[test]
fn dpi_feature_iff_set_dpi_method() {
    let with = device_with(&[("razer.device.dpi", &["setDPI"])]);
    assert!(with.has_feature(Feature::Dpi));
    // The bare interface, another method, or nothing at all is not enough.
    let without = device_with(&[("razer.device.dpi", &["getDPI"])]);
    assert!(!without.has_feature(Feature::Dpi));
    let empty = device_with(&[]);
    assert!(!empty.has_feature(Feature::Dpi));
}

#[test]
fn every_feature_follows_its_gating_pair() {
    let cases: &[(Feature, &str, &str)] = &[
        (Feature::KeyboardLayout, "razer.device.misc", "getKeyboardLayout"),
        (Feature::Dpi, "razer.device.dpi", "setDPI"),
        (Feature::RestrictedDpi, "razer.device.dpi", "availableDPI"),
        (Feature::DpiStages, "razer.device.dpi", "setDPIStages"),
        (Feature::PollRate, "razer.device.misc", "setPollRate"),
        (Feature::CustomFrame, "razer.device.lighting.chroma", "setCustom"),
        (Feature::Battery, "razer.device.power", "getBattery"),
        (Feature::LowBatteryThreshold, "razer.device.power", "getLowBatteryThreshold"),
        (Feature::IdleTime, "razer.device.power", "getIdleTime"),
    ];
    for (feature, iface, method) in cases {
        let d = device_with(&[(iface, &[method])]);
        assert!(d.has_feature(*feature), "{iface};{method}");
        let empty = device_with(&[]);
        assert!(!empty.has_feature(*feature));
    }
}

#[test]
fn unspecified_led_from_any_of_its_four_triggers() {
    let a = device_with(&[("razer.device.lighting.chroma", &["setNone"])]);
    let b = device_with(&[("razer.device.lighting.chroma", &["setStatic"])]);
    let c = device_with(&[("razer.device.lighting.bw2013", &[])]);
    let d = device_with(&[("razer.device.lighting.brightness", &[])]);
    for dev in [&a, &b, &c, &d] {
        assert!(dev.has_led(LedId::Unspecified));
        let leds = dev.supported_leds();
        assert!(leds.iter().any(|(id, label)| *id == LedId::Unspecified
            && label.as_slice() == b"Chroma"));
    }
}

#[test]
fn unspecified_led_absent_without_all_four_triggers() {
    // A chroma interface with only unrelated methods does not assert it.
    let d = device_with(&[("razer.device.lighting.chroma", &["setCustom"])]);
    assert!(!d.has_led(LedId::Unspecified));
    assert!(d.supported_leds().is_empty());
}

#[test]
fn one_to_one_leds_follow_their_interfaces() {
    let cases: &[(LedId, &str, &str)] = &[
        (LedId::LogoLED, "razer.device.lighting.logo", "Logo"),
        (LedId::ScrollWheelLED, "razer.device.lighting.scroll", "Scroll"),
        (LedId::BacklightLED, "razer.device.lighting.backlight", "Backlight"),
        (LedId::LeftSideLED, "razer.device.lighting.left", "Left"),
        (LedId::RightSideLED, "razer.device.lighting.right", "Right"),
        (LedId::ChargingLED, "razer.device.lighting.charging", "Charging"),
        (LedId::FastChargingLED, "razer.device.lighting.fast_charging", "FastCharging"),
        (LedId::FullyChargedLED, "razer.device.lighting.fully_charged", "FullyCharged"),
    ];
    for (led, iface, label) in cases {
        let d = device_with(&[(iface, &[])]);
        assert!(d.has_led(*led), "{iface}");
        let leds = d.supported_leds();
        assert_eq!(leds.len(), 1);
        assert_eq!(leds[0].0, *led);
        assert_eq!(leds[0].1.as_slice(), label.as_bytes());
    }
}

#[test]
fn profile_leds_need_their_specific_methods() {
    let d = device_with(&[(
        "razer.device.lighting.profile_led",
        &["setRedLED", "setBlueLED"],
    )]);
    assert!(d.has_led(LedId::KeymapRedLED));
    assert!(!d.has_led(LedId::KeymapGreenLED));
    assert!(d.has_led(LedId::KeymapBlueLED));
    let leds = d.supported_leds();
    assert_eq!(leds.len(), 2);
    assert_eq!(leds[0].0, LedId::KeymapRedLED);
    assert_eq!(leds[0].1.as_slice(), b"RedLED");
    assert_eq!(leds[1].0, LedId::KeymapBlueLED);
    assert_eq!(leds[1].1.as_slice(), b"BlueLED");
}

#[test]
fn has_capability_checks_interface_and_pair() {
    let d = device_with(&[("razer.device.misc", &["getSerial"])]);
    assert!(d.has_capability(b"razer.device.misc", None));
    assert!(d.has_capability(b"razer.device.misc", Some(b"getSerial")));
    assert!(!d.has_capability(b"razer.device.misc", Some(b"getFirmware")));
    assert!(!d.has_capability(b"razer.device.dpi", None));
}

#[test]
fn capability_lookups_need_no_remote_call_after_construction() {
    let d = device_with(&[
        ("razer.device.power", &["getBattery", "getIdleTime"]),
        ("razer.device.lighting.logo", &[]),
    ]);
    assert!(d.has_feature(Feature::Battery));
    assert!(d.has_feature(Feature::IdleTime));
    assert!(!d.has_feature(Feature::PollRate));
    assert!(d.has_led(LedId::LogoLED));
    assert!(!d.has_led(LedId::ScrollWheelLED));
}
