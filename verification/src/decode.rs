//! The pure decoding and translation rules behind every typed operation.
//!
//! Each remote call hands back plain values; these functions give them their
//! typed shape.  Structural violations (wrong array length, an empty
//! available-DPI list) surface as decode errors; the two documented silent
//! fallbacks — the fixed supported-poll-rates list and the pass-through of
//! unmapped device-type and keyboard-layout codes — are encoded here and
//! nowhere else.

use vstd::prelude::*;

use crate::bytestr::{bytes_eq, concat_bytes, copy_range};
use crate::constants::{device_path_prefix, device_type_accessory, device_type_core,
    device_type_mousemat, device_type_mousepad, device_type_mug, layout_de_de, layout_el_gr,
    layout_en_gb, layout_en_us, layout_en_us_mac, layout_es_es, layout_fr_fr, layout_it_it,
    layout_ja_jp, layout_name_french, layout_name_german, layout_name_greek, layout_name_italian,
    layout_name_japanese, layout_name_portuguese, layout_name_spanish, layout_name_uk,
    layout_name_us, layout_name_us_mac, layout_pt_pt, spec_cap_get_supported_poll_rates,
    spec_device_path_prefix, spec_device_type_accessory, spec_device_type_core,
    spec_device_type_mousemat, spec_device_type_mousepad, spec_device_type_mug, spec_layout_de_de,
    spec_layout_el_gr, spec_layout_en_gb, spec_layout_en_us, spec_layout_en_us_mac,
    spec_layout_es_es, spec_layout_fr_fr, spec_layout_it_it, spec_layout_ja_jp,
    spec_layout_name_french, spec_layout_name_german, spec_layout_name_greek,
    spec_layout_name_italian, spec_layout_name_japanese, spec_layout_name_portuguese,
    spec_layout_name_spanish, spec_layout_name_uk, spec_layout_name_us, spec_layout_name_us_mac,
    spec_layout_pt_pt};
use crate::device::Device;
use crate::error::Error;
use crate::types::{Dpi, MatrixDimensions, Rgb};

verus! {

/// Decodes the raw DPI reply: one element is a single-axis device (`dpi_y`
/// is 0), two elements are the two axes, anything else is malformed.
pub fn decode_dpi(raw: &Vec<i32>) -> (r: Result<Dpi, Error>)
    ensures
        raw@.len() == 1 ==> r == Result::<Dpi, Error>::Ok(
            Dpi { dpi_x: raw@[0] as u16, dpi_y: 0u16 },
        ),
        raw@.len() == 2 ==> r == Result::<Dpi, Error>::Ok(
            Dpi { dpi_x: raw@[0] as u16, dpi_y: raw@[1] as u16 },
        ),
        raw@.len() != 1 && raw@.len() != 2 ==> r == Result::<Dpi, Error>::Err(Error::Decode),
{
    if raw.len() == 1 {
        Result::Ok(Dpi { dpi_x: raw[0] as u16, dpi_y: 0 })
    } else if raw.len() == 2 {
        Result::Ok(Dpi { dpi_x: raw[0] as u16, dpi_y: raw[1] as u16 })
    } else {
        Result::Err(Error::Decode)
    }
}

/// The element-wise narrowing the daemon's signed wire type gets on every
/// rate list.
pub open spec fn spec_rates(raw: Seq<i32>) -> Seq<u16> {
    raw.map_values(|v: i32| v as u16)
}

/// Decodes the allowed-DPI reply: an empty list is malformed — a device
/// with no DPI restriction should never have been asked — and any other
/// list is narrowed element-wise.
pub fn decode_available_dpi(raw: &Vec<i32>) -> (r: Result<Vec<u16>, Error>)
    ensures
        raw@.len() == 0 ==> r is Err && r->Err_0 == Error::Decode,
        raw@.len() > 0 ==> r is Ok && r->Ok_0@ == spec_rates(raw@),
{
    if raw.len() == 0 {
        return Result::Err(Error::Decode);
    }
    Result::Ok(narrow_rates(raw))
}

/// Narrows a raw rate list element-wise.
pub fn narrow_rates(raw: &Vec<i32>) -> (r: Vec<u16>)
    ensures
        r@ == spec_rates(raw@),
{
    let mut out: Vec<u16> = Vec::new();
    let mut i: usize = 0;
    while i < raw.len()
        invariant
            i <= raw@.len(),
            out@ =~= spec_rates(raw@.take(i as int)),
        decreases raw@.len() - i,
    {
        out.push(raw[i] as u16);
        assert(out@ =~= spec_rates(raw@.take(i + 1 as int)));
        i = i + 1;
    }
    assert(raw@.take(raw@.len() as int) =~= raw@);
    out
}

/// The silent narrowing a poll rate gets: the daemon stores a signed 32-bit
/// value, the public type is unsigned 16-bit.
pub fn decode_poll_rate(raw: i32) -> (r: u16)
    ensures
        r == raw as u16,
{
    raw as u16
}

/// The fixed fallback list for devices that cannot enumerate their
/// supported poll rates.
pub fn poll_rates_fallback() -> (r: Vec<u16>)
    ensures
        r@ =~= seq![125u16, 500u16, 1000u16],
{
    let mut v: Vec<u16> = Vec::new();
    v.push(125);
    v.push(500);
    v.push(1000);
    v
}

/// The supported-poll-rates policy: a device lacking the enumeration method
/// gets exactly the fixed fallback list instead of an error; one that has it
/// gets the enumerated list, narrowed element-wise.  The caller passes the
/// enumerated reply exactly when the device can enumerate.
pub fn supported_poll_rates(dev: &Device, enumerated: Option<&Vec<i32>>) -> (r: Vec<u16>)
    requires
        enumerated is Some <==> dev.entries().contains(spec_cap_get_supported_poll_rates()),
    ensures
        enumerated is None ==> r@ =~= seq![125u16, 500u16, 1000u16],
        enumerated matches Option::Some(raw) ==> r@ == spec_rates(raw@),
{
    match enumerated {
        Option::Some(raw) => narrow_rates(raw),
        Option::None => poll_rates_fallback(),
    }
}

/// Decodes the matrix-dimensions reply: exactly two elements, rows then
/// columns; anything else is malformed.
pub fn decode_matrix_dimensions(raw: &Vec<i32>) -> (r: Result<MatrixDimensions, Error>)
    ensures
        raw@.len() == 2 ==> r == Result::<MatrixDimensions, Error>::Ok(
            MatrixDimensions { rows: raw@[0] as u8, columns: raw@[1] as u8 },
        ),
        raw@.len() != 2 ==> r == Result::<MatrixDimensions, Error>::Err(Error::Decode),
{
    if raw.len() != 2 {
        return Result::Err(Error::Decode);
    }
    Result::Ok(MatrixDimensions { rows: raw[0] as u8, columns: raw[1] as u8 })
}

/// The fixed device-type remapping: `"core"` and `"mug"` present as
/// `"accessory"`, `"mousemat"` as `"mousepad"`, everything else passes
/// through unchanged.
pub open spec fn spec_map_device_type(t: Seq<u8>) -> Seq<u8> {
    if t == spec_device_type_core() {
        spec_device_type_accessory()
    } else if t == spec_device_type_mousemat() {
        spec_device_type_mousepad()
    } else if t == spec_device_type_mug() {
        spec_device_type_accessory()
    } else {
        t
    }
}

/// Applies the device-type remapping.
pub fn map_device_type(t: &[u8]) -> (r: Vec<u8>)
    ensures
        r@ == spec_map_device_type(t@),
{
    if bytes_eq(t, device_type_core().as_slice()) {
        device_type_accessory()
    } else if bytes_eq(t, device_type_mousemat().as_slice()) {
        device_type_mousepad()
    } else if bytes_eq(t, device_type_mug().as_slice()) {
        device_type_accessory()
    } else {
        copy_range(t, 0, t.len())
    }
}

/// The fixed keyboard-layout display table: known locale codes map to their
/// display names, unknown codes pass through unchanged.
pub open spec fn spec_map_keyboard_layout(t: Seq<u8>) -> Seq<u8> {
    if t == spec_layout_de_de() {
        spec_layout_name_german()
    } else if t == spec_layout_el_gr() {
        spec_layout_name_greek()
    } else if t == spec_layout_en_gb() {
        spec_layout_name_uk()
    } else if t == spec_layout_en_us() {
        spec_layout_name_us()
    } else if t == spec_layout_en_us_mac() {
        spec_layout_name_us_mac()
    } else if t == spec_layout_es_es() {
        spec_layout_name_spanish()
    } else if t == spec_layout_fr_fr() {
        spec_layout_name_french()
    } else if t == spec_layout_it_it() {
        spec_layout_name_italian()
    } else if t == spec_layout_ja_jp() {
        spec_layout_name_japanese()
    } else if t == spec_layout_pt_pt() {
        spec_layout_name_portuguese()
    } else {
        t
    }
}

/// Applies the keyboard-layout display table.
pub fn map_keyboard_layout(t: &[u8]) -> (r: Vec<u8>)
    ensures
        r@ == spec_map_keyboard_layout(t@),
{
    if bytes_eq(t, layout_de_de().as_slice()) {
        layout_name_german()
    } else if bytes_eq(t, layout_el_gr().as_slice()) {
        layout_name_greek()
    } else if bytes_eq(t, layout_en_gb().as_slice()) {
        layout_name_uk()
    } else if bytes_eq(t, layout_en_us().as_slice()) {
        layout_name_us()
    } else if bytes_eq(t, layout_en_us_mac().as_slice()) {
        layout_name_us_mac()
    } else if bytes_eq(t, layout_es_es().as_slice()) {
        layout_name_spanish()
    } else if bytes_eq(t, layout_fr_fr().as_slice()) {
        layout_name_french()
    } else if bytes_eq(t, layout_it_it().as_slice()) {
        layout_name_italian()
    } else if bytes_eq(t, layout_ja_jp().as_slice()) {
        layout_name_japanese()
    } else if bytes_eq(t, layout_pt_pt().as_slice()) {
        layout_name_portuguese()
    } else {
        copy_range(t, 0, t.len())
    }
}

/// Packs one custom-frame row: the row index, the inclusive start and end
/// columns, then three bytes per pixel in column order.
pub fn build_frame_payload(row: u8, start_column: u8, end_column: u8, colors: &Vec<Rgb>) -> (r:
    Vec<u8>)
    ensures
        r@.len() == 3 + colors@.len() * 3,
        r@[0] == row,
        r@[1] == start_column,
        r@[2] == end_column,
        forall|i: int|
            0 <= i < colors@.len() ==> r@[3 + 3 * i] == (#[trigger] colors@[i]).r && r@[3 + 3 * i
                + 1] == colors@[i].g && r@[3 + 3 * i + 2] == colors@[i].b,
{
    let mut data: Vec<u8> = Vec::new();
    data.push(row);
    data.push(start_column);
    data.push(end_column);
    let mut i: usize = 0;
    while i < colors.len()
        invariant
            i <= colors@.len(),
            data@.len() == 3 + i * 3,
            data@[0] == row,
            data@[1] == start_column,
            data@[2] == end_column,
            forall|j: int|
                0 <= j < i ==> data@[3 + 3 * j] == (#[trigger] colors@[j]).r && data@[3 + 3 * j
                    + 1] == colors@[j].g && data@[3 + 3 * j + 2] == colors@[j].b,
        decreases colors@.len() - i,
    {
        let c = colors[i];
        data.push(c.r);
        data.push(c.g);
        data.push(c.b);
        i = i + 1;
    }
    data
}

/// The object path of a device is built deterministically from its serial:
/// the fixed device-directory prefix followed by the serial.
pub fn device_path_for_serial(serial: &[u8]) -> (r: Vec<u8>)
    ensures
        r@ == spec_device_path_prefix() + serial@,
{
    concat_bytes(device_path_prefix().as_slice(), serial)
}

} // verus!
