use rusty_razer_tray::error::Error;
use rusty_razer_tray::icon::render_digit_icon;
use rusty_razer_tray::icon::{draw_outlined_rect, set_pixel};
use rusty_razer_tray::json::{extract_image_url, parse_supported_devices};

#[test]
fn image_url_extracted_from_top_img_field() {
    let url = extract_image_url("{\"top_img\":\"http://x\"}").unwrap();
    assert_eq!(url, "http://x");
}

#[test]
fn image_url_defaults_to_empty_when_field_absent() {
    assert_eq!(extract_image_url("{}").unwrap(), "");
}

#[test]
fn image_url_defaults_to_empty_when_field_not_a_string() {
    assert_eq!(extract_image_url("{\"top_img\": 5}").unwrap(), "");
    assert_eq!(extract_image_url("{\"top_img\": null}").unwrap(), "");
}

#[test]
fn malformed_json_is_a_decode_error() {
    assert_eq!(extract_image_url("{not json"), Err(Error::Decode));
    assert_eq!(extract_image_url(""), Err(Error::Decode));
}

#[test]
fn supported_devices_payload_parses_to_a_document() {
    let value = parse_supported_devices("{\"RazerViper\": {\"top_img\": \"u\"}}").unwrap();
    let inner = value.get("RazerViper").unwrap();
    assert_eq!(inner.get("top_img").unwrap().as_str().unwrap(), "u");
    assert!(parse_supported_devices("][").is_err());
}

fn px(data: &[u8], x: usize, y: usize) -> (u8, u8, u8, u8) {
    let i = (y * 16 + x) * 4;
    (data[i], data[i + 1], data[i + 2], data[i + 3])
}

const OUTLINE: (u8, u8, u8, u8) = (255, 220, 220, 220);

#[test]
fn icon_outline_and_empty_interior_at_zero_percent() {
    let icon = render_digit_icon(0);
    assert_eq!(icon.width, 16);
    assert_eq!(icon.height, 16);
    assert_eq!(icon.data.len(), 1024);
    // Battery body corners and edges.
    assert_eq!(px(&icon.data, 1, 4), OUTLINE);
    assert_eq!(px(&icon.data, 12, 12), OUTLINE);
    assert_eq!(px(&icon.data, 6, 4), OUTLINE);
    assert_eq!(px(&icon.data, 1, 8), OUTLINE);
    // Terminal nub.
    assert_eq!(px(&icon.data, 13, 8), OUTLINE);
    assert_eq!(px(&icon.data, 14, 7), OUTLINE);
    // Interior stays empty, as does the background.
    assert_eq!(px(&icon.data, 5, 8), (0, 0, 0, 0));
    assert_eq!(px(&icon.data, 0, 0), (0, 0, 0, 0));
    assert_eq!(px(&icon.data, 15, 15), (0, 0, 0, 0));
}

#[test]
fn icon_low_charge_fills_red() {
    let icon = render_digit_icon(10);
    // One filled column at the left of the interior.
    assert_eq!(px(&icon.data, 2, 5), (255, 220, 60, 60));
    assert_eq!(px(&icon.data, 2, 11), (255, 220, 60, 60));
    assert_eq!(px(&icon.data, 3, 8), (0, 0, 0, 0));
}

#[test]
fn icon_mid_charge_fills_yellow() {
    let icon = render_digit_icon(30);
    // Three filled columns.
    assert_eq!(px(&icon.data, 2, 8), (255, 255, 224, 0));
    assert_eq!(px(&icon.data, 4, 8), (255, 255, 224, 0));
    assert_eq!(px(&icon.data, 5, 8), (0, 0, 0, 0));
}

#[test]
fn icon_high_charge_fills_green_and_caps_at_full() {
    let icon = render_digit_icon(80);
    assert_eq!(px(&icon.data, 9, 8), (255, 0, 255, 0));
    assert_eq!(px(&icon.data, 10, 8), (0, 0, 0, 0));
    let full = render_digit_icon(200);
    assert_eq!(px(&full.data, 11, 8), (255, 0, 255, 0));
    // The body outline is never painted over.
    assert_eq!(px(&full.data, 12, 8), OUTLINE);
}

#[test]
fn outlined_rect_draws_edges_only() {
    let mut data = vec![0u8; 4 * 4 * 4];
    draw_outlined_rect(&mut data, 4, 4, 1, 1, 2, 2, (9, 8, 7, 6));
    let at = |x: usize, y: usize| {
        let i = (y * 4 + x) * 4;
        (data[i], data[i + 1], data[i + 2], data[i + 3])
    };
    assert_eq!(at(1, 1), (9, 8, 7, 6));
    assert_eq!(at(2, 1), (9, 8, 7, 6));
    assert_eq!(at(1, 2), (9, 8, 7, 6));
    assert_eq!(at(2, 2), (9, 8, 7, 6));
    assert_eq!(at(0, 0), (0, 0, 0, 0));
    assert_eq!(at(3, 3), (0, 0, 0, 0));
}

#[test]
fn outlined_rect_accepts_swapped_corners() {
    let mut a = vec![0u8; 4 * 4 * 4];
    let mut b = vec![0u8; 4 * 4 * 4];
    draw_outlined_rect(&mut a, 4, 4, 0, 0, 3, 3, (1, 1, 1, 1));
    draw_outlined_rect(&mut b, 4, 4, 3, 3, 0, 0, (1, 1, 1, 1));
    assert_eq!(a, b);
}

#[test]
fn out_of_range_pixels_are_ignored() {
    let mut data = vec![0u8; 2 * 2 * 4];
    set_pixel(&mut data, 2, 2, 7, 0, (1, 2, 3, 4));
    set_pixel(&mut data, 2, 2, 0, 9, (1, 2, 3, 4));
    assert!(data.iter().all(|b| *b == 0));
    set_pixel(&mut data, 2, 2, 1, 1, (1, 2, 3, 4));
    let i = (1 * 2 + 1) * 4;
    assert_eq!(&data[i..i + 4], &[1, 2, 3, 4]);
}
