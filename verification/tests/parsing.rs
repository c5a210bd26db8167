use rusty_razer_tray::device::Device;
use rusty_razer_tray::error::Error;
use rusty_razer_tray::introspect::parse_introspection;

fn entries_of(xml: &str) -> Vec<Vec<u8>> {
    parse_introspection(xml.as_bytes()).expect("document should parse")
}

fn has_entry(entries: &[Vec<u8>], key: &str) -> bool {
    entries.iter().any(|e| e.as_slice() == key.as_bytes())
}

#[test]
fn interface_and_method_both_recorded() {
    let xml = "<node>\n  <interface name=\"razer.device.dpi\">\n    <method name=\"setDPI\">\n      <arg name=\"x\" type=\"q\"/>\n    </method>\n  </interface>\n</node>\n";
    let entries = entries_of(xml);
    assert!(has_entry(&entries, "razer.device.dpi"));
    assert!(has_entry(&entries, "razer.device.dpi;setDPI"));
}

#[test]
fn interface_with_no_methods_still_contributes_bare_entry() {
    let xml = "<node><interface name=\"razer.device.lighting.logo\"/></node>";
    let entries = entries_of(xml);
    assert!(has_entry(&entries, "razer.device.lighting.logo"));
    assert_eq!(entries.len(), 1);
}

#[test]
fn multiline_doctype_preamble_is_stripped() {
    let with_preamble = "<!DOCTYPE node PUBLIC \"-//freedesktop//DTD D-BUS Object Introspection 1.0//EN\"\n\"http://www.freedesktop.org/standards/dbus/1.0/introspect.dtd\"\n>\n<node>\n<interface name=\"razer.device.misc\">\n<method name=\"getSerial\"/>\n</interface>\n</node>\n";
    let without_preamble = "<node>\n<interface name=\"razer.device.misc\">\n<method name=\"getSerial\"/>\n</interface>\n</node>\n";
    let a = entries_of(with_preamble);
    let b = entries_of(without_preamble);
    assert!(has_entry(&a, "razer.device.misc"));
    assert!(has_entry(&a, "razer.device.misc;getSerial"));
    assert_eq!(a, b);
}

#[test]
fn single_line_doctype_is_stripped() {
    let xml = "<!DOCTYPE node SYSTEM \"x.dtd\">\n<node><interface name=\"a.b\"/></node>";
    let entries = entries_of(xml);
    assert!(has_entry(&entries, "a.b"));
}

#[test]
fn unclosed_tag_is_a_parse_error() {
    let xml = "<node><interface name=\"a.b\"";
    assert_eq!(
        parse_introspection(xml.as_bytes()),
        Err(Error::IntrospectionParse)
    );
}

#[test]
fn mismatched_close_tag_is_a_parse_error() {
    let xml = "<node><interface name=\"a.b\"></node></interface>";
    assert_eq!(
        parse_introspection(xml.as_bytes()),
        Err(Error::IntrospectionParse)
    );
}

#[test]
fn unbalanced_open_element_is_a_parse_error() {
    let xml = "<node><interface name=\"a.b\">";
    assert_eq!(
        parse_introspection(xml.as_bytes()),
        Err(Error::IntrospectionParse)
    );
}

#[test]
fn interface_without_name_is_skipped_not_an_error() {
    let xml = "<node><interface><method name=\"m\"/></interface><interface name=\"\"><method name=\"n\"/></interface></node>";
    let entries = entries_of(xml);
    assert!(entries.is_empty());
}

#[test]
fn method_without_name_is_skipped() {
    let xml = "<node><interface name=\"a.b\"><method/></interface></node>";
    let entries = entries_of(xml);
    assert!(has_entry(&entries, "a.b"));
    assert_eq!(entries.len(), 1);
}

#[test]
fn method_with_empty_name_is_skipped() {
    let xml = "<node><interface name=\"a.b\"><method name=\"\"/></interface></node>";
    let entries = entries_of(xml);
    assert!(has_entry(&entries, "a.b"));
    assert!(!has_entry(&entries, "a.b;"));
    assert_eq!(entries.len(), 1);
}

#[test]
fn method_of_nested_unnamed_element_is_not_attributed() {
    // A method that is not a direct child of the interface element does not
    // form a composite entry.
    let xml = "<node><interface name=\"a.b\"><signal name=\"s\"><method name=\"m\"/></signal></interface></node>";
    let entries = entries_of(xml);
    assert!(has_entry(&entries, "a.b"));
    assert!(!has_entry(&entries, "a.b;m"));
}

#[test]
fn processing_instructions_and_comments_are_ignored() {
    let xml = "<?xml version=\"1.0\"?>\n<node><!notadecl><interface name=\"a.b\"/></node>";
    let entries = entries_of(xml);
    assert!(has_entry(&entries, "a.b"));
}

#[test]
fn duplicate_entries_are_kept_once() {
    let xml = "<node><interface name=\"a.b\"><method name=\"m\"/><method name=\"m\"/></interface><interface name=\"a.b\"/></node>";
    let entries = entries_of(xml);
    assert_eq!(entries.len(), 2);
}

#[test]
fn single_quoted_and_spaced_attributes_are_read() {
    let xml = "<node><interface  name = 'a.b' ><method other=\"1\" name='m' /></interface></node>";
    let entries = entries_of(xml);
    assert!(has_entry(&entries, "a.b"));
    assert!(has_entry(&entries, "a.b;m"));
}

#[test]
fn introspection_is_idempotent() {
    let xml = "<node><interface name=\"razer.device.dpi\"><method name=\"setDPI\"/></interface><interface name=\"razer.device.power\"><method name=\"getBattery\"/></interface></node>";
    let first = entries_of(xml);
    let second = entries_of(xml);
    assert_eq!(first, second);
    let d1 = Device::new(b"/org/razer/device/X".to_vec(), xml.as_bytes()).unwrap();
    let d2 = Device::new(b"/org/razer/device/X".to_vec(), xml.as_bytes()).unwrap();
    assert_eq!(d1.supported_leds(), d2.supported_leds());
}

#[test]
fn device_construction_fails_outright_on_bad_document() {
    let bad = "<node><interface name=\"a.b\">";
    assert!(Device::new(b"/p".to_vec(), bad.as_bytes()).is_err());
}

#[test]
fn object_path_is_kept() {
    let xml = "<node/>";
    let d = Device::new(b"/org/razer/device/S1".to_vec(), xml.as_bytes()).unwrap();
    assert_eq!(d.object_path().as_slice(), b"/org/razer/device/S1");
}
