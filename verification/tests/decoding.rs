use rusty_razer_tray::decode::{build_frame_payload, decode_available_dpi, decode_dpi,
    decode_matrix_dimensions, decode_poll_rate, device_path_for_serial, map_device_type,
    map_keyboard_layout, poll_rates_fallback, supported_poll_rates};
use rusty_razer_tray::device::Device;
use rusty_razer_tray::error::Error;
use rusty_razer_tray::types::{Dpi, Rgb};

#[test]
fn dpi_single_axis_reply() {
    let d = decode_dpi(&vec![800]).unwrap();
    assert_eq!(d, Dpi { dpi_x: 800, dpi_y: 0 });
}

#[test]
fn dpi_two_axis_reply() {
    let d = decode_dpi(&vec![800, 600]).unwrap();
    assert_eq!(d, Dpi { dpi_x: 800, dpi_y: 600 });
}

#[test]
fn dpi_three_element_reply_is_a_decode_error() {
    assert_eq!(decode_dpi(&vec![800, 600, 1]), Err(Error::Decode));
    assert_eq!(decode_dpi(&vec![]), Err(Error::Decode));
}

#[test]
fn available_dpi_empty_reply_is_a_decode_error() {
    assert_eq!(decode_available_dpi(&vec![]), Err(Error::Decode));
}

#[test]
fn available_dpi_nonempty_reply_is_narrowed() {
    let v = decode_available_dpi(&vec![400, 800, 1600]).unwrap();
    assert_eq!(v, vec![400u16, 800, 1600]);
}

#[test]
fn poll_rate_narrowing_truncates_silently() {
    assert_eq!(decode_poll_rate(500), 500u16);
    assert_eq!(decode_poll_rate(-1), 65535u16);
    assert_eq!(decode_poll_rate(65536 + 125), 125u16);
}

#[test]
fn supported_poll_rates_fallback_without_enumeration_method() {
    let xml = "<node><interface name=\"razer.device.misc\"><method name=\"setPollRate\"/></interface></node>";
    let dev = Device::new(b"/p".to_vec(), xml.as_bytes()).unwrap();
    let rates = supported_poll_rates(&dev, None);
    assert_eq!(rates, vec![125u16, 500, 1000]);
    assert_eq!(poll_rates_fallback(), vec![125u16, 500, 1000]);
}

#[test]
fn supported_poll_rates_enumerated_when_method_present() {
    let xml = "<node><interface name=\"razer.device.misc\"><method name=\"getSupportedPollRates\"/></interface></node>";
    let dev = Device::new(b"/p".to_vec(), xml.as_bytes()).unwrap();
    let rates = supported_poll_rates(&dev, Some(&vec![125, 250, 1000, 8000]));
    assert_eq!(rates, vec![125u16, 250, 1000, 8000]);
}

#[test]
fn matrix_dimensions_need_exactly_two_elements() {
    let m = decode_matrix_dimensions(&vec![6, 22]).unwrap();
    assert_eq!(m.rows, 6);
    assert_eq!(m.columns, 22);
    assert_eq!(decode_matrix_dimensions(&vec![6]), Err(Error::Decode));
    assert_eq!(decode_matrix_dimensions(&vec![6, 22, 1]), Err(Error::Decode));
}

#[test]
fn device_type_remapping() {
    assert_eq!(map_device_type(b"mousemat"), b"mousepad".to_vec());
    assert_eq!(map_device_type(b"mouse"), b"mouse".to_vec());
    assert_eq!(map_device_type(b"mug"), b"accessory".to_vec());
    assert_eq!(map_device_type(b"core"), b"accessory".to_vec());
    assert_eq!(map_device_type(b"keyboard"), b"keyboard".to_vec());
}

#[test]
fn keyboard_layout_display_names() {
    assert_eq!(map_keyboard_layout(b"en_US_mac"), b"US-mac".to_vec());
    assert_eq!(map_keyboard_layout(b"xx_YY"), b"xx_YY".to_vec());
    assert_eq!(map_keyboard_layout(b"de_DE"), b"German".to_vec());
    assert_eq!(map_keyboard_layout(b"el_GR"), b"Greek".to_vec());
    assert_eq!(map_keyboard_layout(b"en_GB"), b"UK".to_vec());
    assert_eq!(map_keyboard_layout(b"en_US"), b"US".to_vec());
    assert_eq!(map_keyboard_layout(b"es_ES"), b"Spanish".to_vec());
    assert_eq!(map_keyboard_layout(b"fr_FR"), b"French".to_vec());
    assert_eq!(map_keyboard_layout(b"it_IT"), b"Italian".to_vec());
    assert_eq!(map_keyboard_layout(b"ja_JP"), b"Japanese".to_vec());
    assert_eq!(map_keyboard_layout(b"pt_PT"), b"Portuguese".to_vec());
}

#[test]
fn frame_payload_layout() {
    let colors = vec![
        Rgb { r: 1, g: 2, b: 3 },
        Rgb { r: 10, g: 20, b: 30 },
    ];
    let payload = build_frame_payload(4, 0, 1, &colors);
    assert_eq!(payload, vec![4u8, 0, 1, 1, 2, 3, 10, 20, 30]);
}

#[test]
fn frame_payload_with_no_pixels() {
    let payload = build_frame_payload(2, 5, 5, &vec![]);
    assert_eq!(payload, vec![2u8, 5, 5]);
}

#[test]
fn device_paths_come_from_serials() {
    assert_eq!(
        device_path_for_serial(b"PM1234"),
        b"/org/razer/device/PM1234".to_vec()
    );
}
