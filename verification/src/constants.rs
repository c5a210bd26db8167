//! The fixed byte-string vocabulary of the protocol: element and attribute
//! names of the introspection document, the capability entries that gate each
//! feature and LED, display labels, and the remapping tables for device types
//! and keyboard layouts.  Each string exists as a spec sequence and as an
//! executable constructor proved to return exactly that sequence.

use vstd::prelude::*;

use crate::bytestr::bytes_of;

verus! {

/// `"interface"`
pub open spec fn spec_tag_interface() -> Seq<u8> {
    seq![105u8, 110u8, 116u8, 101u8, 114u8, 102u8, 97u8, 99u8, 101u8]
}

/// `"interface"`
pub fn tag_interface() -> (r: Vec<u8>)
    ensures
        r@ == spec_tag_interface(),
{
    let a: [u8; 9] = [105, 110, 116, 101, 114, 102, 97, 99, 101];
    assert(a@ =~= spec_tag_interface());
    bytes_of(a)
}

/// `"method"`
pub open spec fn spec_tag_method() -> Seq<u8> {
    seq![109u8, 101u8, 116u8, 104u8, 111u8, 100u8]
}

/// `"method"`
pub fn tag_method() -> (r: Vec<u8>)
    ensures
        r@ == spec_tag_method(),
{
    let a: [u8; 6] = [109, 101, 116, 104, 111, 100];
    assert(a@ =~= spec_tag_method());
    bytes_of(a)
}

/// `"name"`
pub open spec fn spec_attr_name() -> Seq<u8> {
    seq![110u8, 97u8, 109u8, 101u8]
}

/// `"name"`
pub fn attr_name() -> (r: Vec<u8>)
    ensures
        r@ == spec_attr_name(),
{
    let a: [u8; 4] = [110, 97, 109, 101];
    assert(a@ =~= spec_attr_name());
    bytes_of(a)
}

/// `"<!DOCTYPE"`
pub open spec fn spec_doctype_prefix() -> Seq<u8> {
    seq![60u8, 33u8, 68u8, 79u8, 67u8, 84u8, 89u8, 80u8, 69u8]
}

/// `"<!DOCTYPE"`
pub fn doctype_prefix() -> (r: Vec<u8>)
    ensures
        r@ == spec_doctype_prefix(),
{
    let a: [u8; 9] = [60, 33, 68, 79, 67, 84, 89, 80, 69];
    assert(a@ =~= spec_doctype_prefix());
    bytes_of(a)
}

/// `"razer.device.misc;getKeyboardLayout"`
pub open spec fn spec_cap_keyboard_layout() -> Seq<u8> {
    seq![114u8, 97u8, 122u8, 101u8, 114u8, 46u8, 100u8, 101u8, 118u8, 105u8, 99u8, 101u8, 46u8, 109u8, 105u8, 115u8, 99u8, 59u8, 103u8, 101u8, 116u8, 75u8, 101u8, 121u8, 98u8, 111u8, 97u8, 114u8, 100u8, 76u8, 97u8, 121u8, 111u8, 117u8, 116u8]
}

/// `"razer.device.misc;getKeyboardLayout"`
pub fn cap_keyboard_layout() -> (r: Vec<u8>)
    ensures
        r@ == spec_cap_keyboard_layout(),
{
    let a: [u8; 35] = [114, 97, 122, 101, 114, 46, 100, 101, 118, 105, 99, 101, 46, 109, 105, 115, 99, 59, 103, 101, 116, 75, 101, 121, 98, 111, 97, 114, 100, 76, 97, 121, 111, 117, 116];
    assert(a@ =~= spec_cap_keyboard_layout());
    bytes_of(a)
}

/// `"razer.device.dpi;setDPI"`
pub open spec fn spec_cap_set_dpi() -> Seq<u8> {
    seq![114u8, 97u8, 122u8, 101u8, 114u8, 46u8, 100u8, 101u8, 118u8, 105u8, 99u8, 101u8, 46u8, 100u8, 112u8, 105u8, 59u8, 115u8, 101u8, 116u8, 68u8, 80u8, 73u8]
}

/// `"razer.device.dpi;setDPI"`
pub fn cap_set_dpi() -> (r: Vec<u8>)
    ensures
        r@ == spec_cap_set_dpi(),
{
    let a: [u8; 23] = [114, 97, 122, 101, 114, 46, 100, 101, 118, 105, 99, 101, 46, 100, 112, 105, 59, 115, 101, 116, 68, 80, 73];
    assert(a@ =~= spec_cap_set_dpi());
    bytes_of(a)
}

/// `"razer.device.dpi;availableDPI"`
pub open spec fn spec_cap_available_dpi() -> Seq<u8> {
    seq![114u8, 97u8, 122u8, 101u8, 114u8, 46u8, 100u8, 101u8, 118u8, 105u8, 99u8, 101u8, 46u8, 100u8, 112u8, 105u8, 59u8, 97u8, 118u8, 97u8, 105u8, 108u8, 97u8, 98u8, 108u8, 101u8, 68u8, 80u8, 73u8]
}

/// `"razer.device.dpi;availableDPI"`
pub fn cap_available_dpi() -> (r: Vec<u8>)
    ensures
        r@ == spec_cap_available_dpi(),
{
    let a: [u8; 29] = [114, 97, 122, 101, 114, 46, 100, 101, 118, 105, 99, 101, 46, 100, 112, 105, 59, 97, 118, 97, 105, 108, 97, 98, 108, 101, 68, 80, 73];
    assert(a@ =~= spec_cap_available_dpi());
    bytes_of(a)
}

/// `"razer.device.dpi;setDPIStages"`
pub open spec fn spec_cap_set_dpi_stages() -> Seq<u8> {
    seq![114u8, 97u8, 122u8, 101u8, 114u8, 46u8, 100u8, 101u8, 118u8, 105u8, 99u8, 101u8, 46u8, 100u8, 112u8, 105u8, 59u8, 115u8, 101u8, 116u8, 68u8, 80u8, 73u8, 83u8, 116u8, 97u8, 103u8, 101u8, 115u8]
}

/// `"razer.device.dpi;setDPIStages"`
pub fn cap_set_dpi_stages() -> (r: Vec<u8>)
    ensures
        r@ == spec_cap_set_dpi_stages(),
{
    let a: [u8; 29] = [114, 97, 122, 101, 114, 46, 100, 101, 118, 105, 99, 101, 46, 100, 112, 105, 59, 115, 101, 116, 68, 80, 73, 83, 116, 97, 103, 101, 115];
    assert(a@ =~= spec_cap_set_dpi_stages());
    bytes_of(a)
}

/// `"razer.device.misc;setPollRate"`
pub open spec fn spec_cap_set_poll_rate() -> Seq<u8> {
    seq![114u8, 97u8, 122u8, 101u8, 114u8, 46u8, 100u8, 101u8, 118u8, 105u8, 99u8, 101u8, 46u8, 109u8, 105u8, 115u8, 99u8, 59u8, 115u8, 101u8, 116u8, 80u8, 111u8, 108u8, 108u8, 82u8, 97u8, 116u8, 101u8]
}

/// `"razer.device.misc;setPollRate"`
pub fn cap_set_poll_rate() -> (r: Vec<u8>)
    ensures
        r@ == spec_cap_set_poll_rate(),
{
    let a: [u8; 29] = [114, 97, 122, 101, 114, 46, 100, 101, 118, 105, 99, 101, 46, 109, 105, 115, 99, 59, 115, 101, 116, 80, 111, 108, 108, 82, 97, 116, 101];
    assert(a@ =~= spec_cap_set_poll_rate());
    bytes_of(a)
}

/// `"razer.device.misc;getSupportedPollRates"`
pub open spec fn spec_cap_get_supported_poll_rates() -> Seq<u8> {
    seq![114u8, 97u8, 122u8, 101u8, 114u8, 46u8, 100u8, 101u8, 118u8, 105u8, 99u8, 101u8, 46u8, 109u8, 105u8, 115u8, 99u8, 59u8, 103u8, 101u8, 116u8, 83u8, 117u8, 112u8, 112u8, 111u8, 114u8, 116u8, 101u8, 100u8, 80u8, 111u8, 108u8, 108u8, 82u8, 97u8, 116u8, 101u8, 115u8]
}

/// `"razer.device.misc;getSupportedPollRates"`
pub fn cap_get_supported_poll_rates() -> (r: Vec<u8>)
    ensures
        r@ == spec_cap_get_supported_poll_rates(),
{
    let a: [u8; 39] = [114, 97, 122, 101, 114, 46, 100, 101, 118, 105, 99, 101, 46, 109, 105, 115, 99, 59, 103, 101, 116, 83, 117, 112, 112, 111, 114, 116, 101, 100, 80, 111, 108, 108, 82, 97, 116, 101, 115];
    assert(a@ =~= spec_cap_get_supported_poll_rates());
    bytes_of(a)
}

/// `"razer.device.lighting.chroma;setCustom"`
pub open spec fn spec_cap_set_custom() -> Seq<u8> {
    seq![114u8, 97u8, 122u8, 101u8, 114u8, 46u8, 100u8, 101u8, 118u8, 105u8, 99u8, 101u8, 46u8, 108u8, 105u8, 103u8, 104u8, 116u8, 105u8, 110u8, 103u8, 46u8, 99u8, 104u8, 114u8, 111u8, 109u8, 97u8, 59u8, 115u8, 101u8, 116u8, 67u8, 117u8, 115u8, 116u8, 111u8, 109u8]
}

/// `"razer.device.lighting.chroma;setCustom"`
pub fn cap_set_custom() -> (r: Vec<u8>)
    ensures
        r@ == spec_cap_set_custom(),
{
    let a: [u8; 38] = [114, 97, 122, 101, 114, 46, 100, 101, 118, 105, 99, 101, 46, 108, 105, 103, 104, 116, 105, 110, 103, 46, 99, 104, 114, 111, 109, 97, 59, 115, 101, 116, 67, 117, 115, 116, 111, 109];
    assert(a@ =~= spec_cap_set_custom());
    bytes_of(a)
}

/// `"razer.device.power;getBattery"`
pub open spec fn spec_cap_get_battery() -> Seq<u8> {
    seq![114u8, 97u8, 122u8, 101u8, 114u8, 46u8, 100u8, 101u8, 118u8, 105u8, 99u8, 101u8, 46u8, 112u8, 111u8, 119u8, 101u8, 114u8, 59u8, 103u8, 101u8, 116u8, 66u8, 97u8, 116u8, 116u8, 101u8, 114u8, 121u8]
}

/// `"razer.device.power;getBattery"`
pub fn cap_get_battery() -> (r: Vec<u8>)
    ensures
        r@ == spec_cap_get_battery(),
{
    let a: [u8; 29] = [114, 97, 122, 101, 114, 46, 100, 101, 118, 105, 99, 101, 46, 112, 111, 119, 101, 114, 59, 103, 101, 116, 66, 97, 116, 116, 101, 114, 121];
    assert(a@ =~= spec_cap_get_battery());
    bytes_of(a)
}

/// `"razer.device.power;getLowBatteryThreshold"`
pub open spec fn spec_cap_get_low_battery_threshold() -> Seq<u8> {
    seq![114u8, 97u8, 122u8, 101u8, 114u8, 46u8, 100u8, 101u8, 118u8, 105u8, 99u8, 101u8, 46u8, 112u8, 111u8, 119u8, 101u8, 114u8, 59u8, 103u8, 101u8, 116u8, 76u8, 111u8, 119u8, 66u8, 97u8, 116u8, 116u8, 101u8, 114u8, 121u8, 84u8, 104u8, 114u8, 101u8, 115u8, 104u8, 111u8, 108u8, 100u8]
}

/// `"razer.device.power;getLowBatteryThreshold"`
pub fn cap_get_low_battery_threshold() -> (r: Vec<u8>)
    ensures
        r@ == spec_cap_get_low_battery_threshold(),
{
    let a: [u8; 41] = [114, 97, 122, 101, 114, 46, 100, 101, 118, 105, 99, 101, 46, 112, 111, 119, 101, 114, 59, 103, 101, 116, 76, 111, 119, 66, 97, 116, 116, 101, 114, 121, 84, 104, 114, 101, 115, 104, 111, 108, 100];
    assert(a@ =~= spec_cap_get_low_battery_threshold());
    bytes_of(a)
}

/// `"razer.device.power;getIdleTime"`
pub open spec fn spec_cap_get_idle_time() -> Seq<u8> {
    seq![114u8, 97u8, 122u8, 101u8, 114u8, 46u8, 100u8, 101u8, 118u8, 105u8, 99u8, 101u8, 46u8, 112u8, 111u8, 119u8, 101u8, 114u8, 59u8, 103u8, 101u8, 116u8, 73u8, 100u8, 108u8, 101u8, 84u8, 105u8, 109u8, 101u8]
}

/// `"razer.device.power;getIdleTime"`
pub fn cap_get_idle_time() -> (r: Vec<u8>)
    ensures
        r@ == spec_cap_get_idle_time(),
{
    let a: [u8; 30] = [114, 97, 122, 101, 114, 46, 100, 101, 118, 105, 99, 101, 46, 112, 111, 119, 101, 114, 59, 103, 101, 116, 73, 100, 108, 101, 84, 105, 109, 101];
    assert(a@ =~= spec_cap_get_idle_time());
    bytes_of(a)
}

/// `"razer.device.lighting.chroma;setNone"`
pub open spec fn spec_cap_chroma_set_none() -> Seq<u8> {
    seq![114u8, 97u8, 122u8, 101u8, 114u8, 46u8, 100u8, 101u8, 118u8, 105u8, 99u8, 101u8, 46u8, 108u8, 105u8, 103u8, 104u8, 116u8, 105u8, 110u8, 103u8, 46u8, 99u8, 104u8, 114u8, 111u8, 109u8, 97u8, 59u8, 115u8, 101u8, 116u8, 78u8, 111u8, 110u8, 101u8]
}

/// `"razer.device.lighting.chroma;setNone"`
pub fn cap_chroma_set_none() -> (r: Vec<u8>)
    ensures
        r@ == spec_cap_chroma_set_none(),
{
    let a: [u8; 36] = [114, 97, 122, 101, 114, 46, 100, 101, 118, 105, 99, 101, 46, 108, 105, 103, 104, 116, 105, 110, 103, 46, 99, 104, 114, 111, 109, 97, 59, 115, 101, 116, 78, 111, 110, 101];
    assert(a@ =~= spec_cap_chroma_set_none());
    bytes_of(a)
}

/// `"razer.device.lighting.chroma;setStatic"`
pub open spec fn spec_cap_chroma_set_static() -> Seq<u8> {
    seq![114u8, 97u8, 122u8, 101u8, 114u8, 46u8, 100u8, 101u8, 118u8, 105u8, 99u8, 101u8, 46u8, 108u8, 105u8, 103u8, 104u8, 116u8, 105u8, 110u8, 103u8, 46u8, 99u8, 104u8, 114u8, 111u8, 109u8, 97u8, 59u8, 115u8, 101u8, 116u8, 83u8, 116u8, 97u8, 116u8, 105u8, 99u8]
}

/// `"razer.device.lighting.chroma;setStatic"`
pub fn cap_chroma_set_static() -> (r: Vec<u8>)
    ensures
        r@ == spec_cap_chroma_set_static(),
{
    let a: [u8; 38] = [114, 97, 122, 101, 114, 46, 100, 101, 118, 105, 99, 101, 46, 108, 105, 103, 104, 116, 105, 110, 103, 46, 99, 104, 114, 111, 109, 97, 59, 115, 101, 116, 83, 116, 97, 116, 105, 99];
    assert(a@ =~= spec_cap_chroma_set_static());
    bytes_of(a)
}

/// `"razer.device.lighting.bw2013"`
pub open spec fn spec_cap_lighting_bw2013() -> Seq<u8> {
    seq![114u8, 97u8, 122u8, 101u8, 114u8, 46u8, 100u8, 101u8, 118u8, 105u8, 99u8, 101u8, 46u8, 108u8, 105u8, 103u8, 104u8, 116u8, 105u8, 110u8, 103u8, 46u8, 98u8, 119u8, 50u8, 48u8, 49u8, 51u8]
}

/// `"razer.device.lighting.bw2013"`
pub fn cap_lighting_bw2013() -> (r: Vec<u8>)
    ensures
        r@ == spec_cap_lighting_bw2013(),
{
    let a: [u8; 28] = [114, 97, 122, 101, 114, 46, 100, 101, 118, 105, 99, 101, 46, 108, 105, 103, 104, 116, 105, 110, 103, 46, 98, 119, 50, 48, 49, 51];
    assert(a@ =~= spec_cap_lighting_bw2013());
    bytes_of(a)
}

/// `"razer.device.lighting.brightness"`
pub open spec fn spec_cap_lighting_brightness() -> Seq<u8> {
    seq![114u8, 97u8, 122u8, 101u8, 114u8, 46u8, 100u8, 101u8, 118u8, 105u8, 99u8, 101u8, 46u8, 108u8, 105u8, 103u8, 104u8, 116u8, 105u8, 110u8, 103u8, 46u8, 98u8, 114u8, 105u8, 103u8, 104u8, 116u8, 110u8, 101u8, 115u8, 115u8]
}

/// `"razer.device.lighting.brightness"`
pub fn cap_lighting_brightness() -> (r: Vec<u8>)
    ensures
        r@ == spec_cap_lighting_brightness(),
{
    let a: [u8; 32] = [114, 97, 122, 101, 114, 46, 100, 101, 118, 105, 99, 101, 46, 108, 105, 103, 104, 116, 105, 110, 103, 46, 98, 114, 105, 103, 104, 116, 110, 101, 115, 115];
    assert(a@ =~= spec_cap_lighting_brightness());
    bytes_of(a)
}

/// `"razer.device.lighting.logo"`
pub open spec fn spec_cap_lighting_logo() -> Seq<u8> {
    seq![114u8, 97u8, 122u8, 101u8, 114u8, 46u8, 100u8, 101u8, 118u8, 105u8, 99u8, 101u8, 46u8, 108u8, 105u8, 103u8, 104u8, 116u8, 105u8, 110u8, 103u8, 46u8, 108u8, 111u8, 103u8, 111u8]
}

/// `"razer.device.lighting.logo"`
pub fn cap_lighting_logo() -> (r: Vec<u8>)
    ensures
        r@ == spec_cap_lighting_logo(),
{
    let a: [u8; 26] = [114, 97, 122, 101, 114, 46, 100, 101, 118, 105, 99, 101, 46, 108, 105, 103, 104, 116, 105, 110, 103, 46, 108, 111, 103, 111];
    assert(a@ =~= spec_cap_lighting_logo());
    bytes_of(a)
}

/// `"razer.device.lighting.scroll"`
pub open spec fn spec_cap_lighting_scroll() -> Seq<u8> {
    seq![114u8, 97u8, 122u8, 101u8, 114u8, 46u8, 100u8, 101u8, 118u8, 105u8, 99u8, 101u8, 46u8, 108u8, 105u8, 103u8, 104u8, 116u8, 105u8, 110u8, 103u8, 46u8, 115u8, 99u8, 114u8, 111u8, 108u8, 108u8]
}

/// `"razer.device.lighting.scroll"`
pub fn cap_lighting_scroll() -> (r: Vec<u8>)
    ensures
        r@ == spec_cap_lighting_scroll(),
{
    let a: [u8; 28] = [114, 97, 122, 101, 114, 46, 100, 101, 118, 105, 99, 101, 46, 108, 105, 103, 104, 116, 105, 110, 103, 46, 115, 99, 114, 111, 108, 108];
    assert(a@ =~= spec_cap_lighting_scroll());
    bytes_of(a)
}

/// `"razer.device.lighting.backlight"`
pub open spec fn spec_cap_lighting_backlight() -> Seq<u8> {
    seq![114u8, 97u8, 122u8, 101u8, 114u8, 46u8, 100u8, 101u8, 118u8, 105u8, 99u8, 101u8, 46u8, 108u8, 105u8, 103u8, 104u8, 116u8, 105u8, 110u8, 103u8, 46u8, 98u8, 97u8, 99u8, 107u8, 108u8, 105u8, 103u8, 104u8, 116u8]
}

/// `"razer.device.lighting.backlight"`
pub fn cap_lighting_backlight() -> (r: Vec<u8>)
    ensures
        r@ == spec_cap_lighting_backlight(),
{
    let a: [u8; 31] = [114, 97, 122, 101, 114, 46, 100, 101, 118, 105, 99, 101, 46, 108, 105, 103, 104, 116, 105, 110, 103, 46, 98, 97, 99, 107, 108, 105, 103, 104, 116];
    assert(a@ =~= spec_cap_lighting_backlight());
    bytes_of(a)
}

/// `"razer.device.lighting.left"`
pub open spec fn spec_cap_lighting_left() -> Seq<u8> {
    seq![114u8, 97u8, 122u8, 101u8, 114u8, 46u8, 100u8, 101u8, 118u8, 105u8, 99u8, 101u8, 46u8, 108u8, 105u8, 103u8, 104u8, 116u8, 105u8, 110u8, 103u8, 46u8, 108u8, 101u8, 102u8, 116u8]
}

/// `"razer.device.lighting.left"`
pub fn cap_lighting_left() -> (r: Vec<u8>)
    ensures
        r@ == spec_cap_lighting_left(),
{
    let a: [u8; 26] = [114, 97, 122, 101, 114, 46, 100, 101, 118, 105, 99, 101, 46, 108, 105, 103, 104, 116, 105, 110, 103, 46, 108, 101, 102, 116];
    assert(a@ =~= spec_cap_lighting_left());
    bytes_of(a)
}

/// `"razer.device.lighting.right"`
pub open spec fn spec_cap_lighting_right() -> Seq<u8> {
    seq![114u8, 97u8, 122u8, 101u8, 114u8, 46u8, 100u8, 101u8, 118u8, 105u8, 99u8, 101u8, 46u8, 108u8, 105u8, 103u8, 104u8, 116u8, 105u8, 110u8, 103u8, 46u8, 114u8, 105u8, 103u8, 104u8, 116u8]
}

/// `"razer.device.lighting.right"`
pub fn cap_lighting_right() -> (r: Vec<u8>)
    ensures
        r@ == spec_cap_lighting_right(),
{
    let a: [u8; 27] = [114, 97, 122, 101, 114, 46, 100, 101, 118, 105, 99, 101, 46, 108, 105, 103, 104, 116, 105, 110, 103, 46, 114, 105, 103, 104, 116];
    assert(a@ =~= spec_cap_lighting_right());
    bytes_of(a)
}

/// `"razer.device.lighting.profile_led;setRedLED"`
pub open spec fn spec_cap_profile_red() -> Seq<u8> {
    seq![114u8, 97u8, 122u8, 101u8, 114u8, 46u8, 100u8, 101u8, 118u8, 105u8, 99u8, 101u8, 46u8, 108u8, 105u8, 103u8, 104u8, 116u8, 105u8, 110u8, 103u8, 46u8, 112u8, 114u8, 111u8, 102u8, 105u8, 108u8, 101u8, 95u8, 108u8, 101u8, 100u8, 59u8, 115u8, 101u8, 116u8, 82u8, 101u8, 100u8, 76u8, 69u8, 68u8]
}

/// `"razer.device.lighting.profile_led;setRedLED"`
pub fn cap_profile_red() -> (r: Vec<u8>)
    ensures
        r@ == spec_cap_profile_red(),
{
    let a: [u8; 43] = [114, 97, 122, 101, 114, 46, 100, 101, 118, 105, 99, 101, 46, 108, 105, 103, 104, 116, 105, 110, 103, 46, 112, 114, 111, 102, 105, 108, 101, 95, 108, 101, 100, 59, 115, 101, 116, 82, 101, 100, 76, 69, 68];
    assert(a@ =~= spec_cap_profile_red());
    bytes_of(a)
}

/// `"razer.device.lighting.profile_led;setGreenLED"`
pub open spec fn spec_cap_profile_green() -> Seq<u8> {
    seq![114u8, 97u8, 122u8, 101u8, 114u8, 46u8, 100u8, 101u8, 118u8, 105u8, 99u8, 101u8, 46u8, 108u8, 105u8, 103u8, 104u8, 116u8, 105u8, 110u8, 103u8, 46u8, 112u8, 114u8, 111u8, 102u8, 105u8, 108u8, 101u8, 95u8, 108u8, 101u8, 100u8, 59u8, 115u8, 101u8, 116u8, 71u8, 114u8, 101u8, 101u8, 110u8, 76u8, 69u8, 68u8]
}

/// `"razer.device.lighting.profile_led;setGreenLED"`
pub fn cap_profile_green() -> (r: Vec<u8>)
    ensures
        r@ == spec_cap_profile_green(),
{
    let a: [u8; 45] = [114, 97, 122, 101, 114, 46, 100, 101, 118, 105, 99, 101, 46, 108, 105, 103, 104, 116, 105, 110, 103, 46, 112, 114, 111, 102, 105, 108, 101, 95, 108, 101, 100, 59, 115, 101, 116, 71, 114, 101, 101, 110, 76, 69, 68];
    assert(a@ =~= spec_cap_profile_green());
    bytes_of(a)
}

/// `"razer.device.lighting.profile_led;setBlueLED"`
pub open spec fn spec_cap_profile_blue() -> Seq<u8> {
    seq![114u8, 97u8, 122u8, 101u8, 114u8, 46u8, 100u8, 101u8, 118u8, 105u8, 99u8, 101u8, 46u8, 108u8, 105u8, 103u8, 104u8, 116u8, 105u8, 110u8, 103u8, 46u8, 112u8, 114u8, 111u8, 102u8, 105u8, 108u8, 101u8, 95u8, 108u8, 101u8, 100u8, 59u8, 115u8, 101u8, 116u8, 66u8, 108u8, 117u8, 101u8, 76u8, 69u8, 68u8]
}

/// `"razer.device.lighting.profile_led;setBlueLED"`
pub fn cap_profile_blue() -> (r: Vec<u8>)
    ensures
        r@ == spec_cap_profile_blue(),
{
    let a: [u8; 44] = [114, 97, 122, 101, 114, 46, 100, 101, 118, 105, 99, 101, 46, 108, 105, 103, 104, 116, 105, 110, 103, 46, 112, 114, 111, 102, 105, 108, 101, 95, 108, 101, 100, 59, 115, 101, 116, 66, 108, 117, 101, 76, 69, 68];
    assert(a@ =~= spec_cap_profile_blue());
    bytes_of(a)
}

/// `"razer.device.lighting.charging"`
pub open spec fn spec_cap_lighting_charging() -> Seq<u8> {
    seq![114u8, 97u8, 122u8, 101u8, 114u8, 46u8, 100u8, 101u8, 118u8, 105u8, 99u8, 101u8, 46u8, 108u8, 105u8, 103u8, 104u8, 116u8, 105u8, 110u8, 103u8, 46u8, 99u8, 104u8, 97u8, 114u8, 103u8, 105u8, 110u8, 103u8]
}

/// `"razer.device.lighting.charging"`
pub fn cap_lighting_charging() -> (r: Vec<u8>)
    ensures
        r@ == spec_cap_lighting_charging(),
{
    let a: [u8; 30] = [114, 97, 122, 101, 114, 46, 100, 101, 118, 105, 99, 101, 46, 108, 105, 103, 104, 116, 105, 110, 103, 46, 99, 104, 97, 114, 103, 105, 110, 103];
    assert(a@ =~= spec_cap_lighting_charging());
    bytes_of(a)
}

/// `"razer.device.lighting.fast_charging"`
pub open spec fn spec_cap_lighting_fast_charging() -> Seq<u8> {
    seq![114u8, 97u8, 122u8, 101u8, 114u8, 46u8, 100u8, 101u8, 118u8, 105u8, 99u8, 101u8, 46u8, 108u8, 105u8, 103u8, 104u8, 116u8, 105u8, 110u8, 103u8, 46u8, 102u8, 97u8, 115u8, 116u8, 95u8, 99u8, 104u8, 97u8, 114u8, 103u8, 105u8, 110u8, 103u8]
}

/// `"razer.device.lighting.fast_charging"`
pub fn cap_lighting_fast_charging() -> (r: Vec<u8>)
    ensures
        r@ == spec_cap_lighting_fast_charging(),
{
    let a: [u8; 35] = [114, 97, 122, 101, 114, 46, 100, 101, 118, 105, 99, 101, 46, 108, 105, 103, 104, 116, 105, 110, 103, 46, 102, 97, 115, 116, 95, 99, 104, 97, 114, 103, 105, 110, 103];
    assert(a@ =~= spec_cap_lighting_fast_charging());
    bytes_of(a)
}

/// `"razer.device.lighting.fully_charged"`
pub open spec fn spec_cap_lighting_fully_charged() -> Seq<u8> {
    seq![114u8, 97u8, 122u8, 101u8, 114u8, 46u8, 100u8, 101u8, 118u8, 105u8, 99u8, 101u8, 46u8, 108u8, 105u8, 103u8, 104u8, 116u8, 105u8, 110u8, 103u8, 46u8, 102u8, 117u8, 108u8, 108u8, 121u8, 95u8, 99u8, 104u8, 97u8, 114u8, 103u8, 101u8, 100u8]
}

/// `"razer.device.lighting.fully_charged"`
pub fn cap_lighting_fully_charged() -> (r: Vec<u8>)
    ensures
        r@ == spec_cap_lighting_fully_charged(),
{
    let a: [u8; 35] = [114, 97, 122, 101, 114, 46, 100, 101, 118, 105, 99, 101, 46, 108, 105, 103, 104, 116, 105, 110, 103, 46, 102, 117, 108, 108, 121, 95, 99, 104, 97, 114, 103, 101, 100];
    assert(a@ =~= spec_cap_lighting_fully_charged());
    bytes_of(a)
}

/// `"Chroma"`
pub open spec fn spec_label_chroma() -> Seq<u8> {
    seq![67u8, 104u8, 114u8, 111u8, 109u8, 97u8]
}

/// `"Chroma"`
pub fn label_chroma() -> (r: Vec<u8>)
    ensures
        r@ == spec_label_chroma(),
{
    let a: [u8; 6] = [67, 104, 114, 111, 109, 97];
    assert(a@ =~= spec_label_chroma());
    bytes_of(a)
}

/// `"Logo"`
pub open spec fn spec_label_logo() -> Seq<u8> {
    seq![76u8, 111u8, 103u8, 111u8]
}

/// `"Logo"`
pub fn label_logo() -> (r: Vec<u8>)
    ensures
        r@ == spec_label_logo(),
{
    let a: [u8; 4] = [76, 111, 103, 111];
    assert(a@ =~= spec_label_logo());
    bytes_of(a)
}

/// `"Scroll"`
pub open spec fn spec_label_scroll() -> Seq<u8> {
    seq![83u8, 99u8, 114u8, 111u8, 108u8, 108u8]
}

/// `"Scroll"`
pub fn label_scroll() -> (r: Vec<u8>)
    ensures
        r@ == spec_label_scroll(),
{
    let a: [u8; 6] = [83, 99, 114, 111, 108, 108];
    assert(a@ =~= spec_label_scroll());
    bytes_of(a)
}

/// `"Backlight"`
pub open spec fn spec_label_backlight() -> Seq<u8> {
    seq![66u8, 97u8, 99u8, 107u8, 108u8, 105u8, 103u8, 104u8, 116u8]
}

/// `"Backlight"`
pub fn label_backlight() -> (r: Vec<u8>)
    ensures
        r@ == spec_label_backlight(),
{
    let a: [u8; 9] = [66, 97, 99, 107, 108, 105, 103, 104, 116];
    assert(a@ =~= spec_label_backlight());
    bytes_of(a)
}

/// `"Left"`
pub open spec fn spec_label_left() -> Seq<u8> {
    seq![76u8, 101u8, 102u8, 116u8]
}

/// `"Left"`
pub fn label_left() -> (r: Vec<u8>)
    ensures
        r@ == spec_label_left(),
{
    let a: [u8; 4] = [76, 101, 102, 116];
    assert(a@ =~= spec_label_left());
    bytes_of(a)
}

/// `"Right"`
pub open spec fn spec_label_right() -> Seq<u8> {
    seq![82u8, 105u8, 103u8, 104u8, 116u8]
}

/// `"Right"`
pub fn label_right() -> (r: Vec<u8>)
    ensures
        r@ == spec_label_right(),
{
    let a: [u8; 5] = [82, 105, 103, 104, 116];
    assert(a@ =~= spec_label_right());
    bytes_of(a)
}

/// `"RedLED"`
pub open spec fn spec_label_red_led() -> Seq<u8> {
    seq![82u8, 101u8, 100u8, 76u8, 69u8, 68u8]
}

/// `"RedLED"`
pub fn label_red_led() -> (r: Vec<u8>)
    ensures
        r@ == spec_label_red_led(),
{
    let a: [u8; 6] = [82, 101, 100, 76, 69, 68];
    assert(a@ =~= spec_label_red_led());
    bytes_of(a)
}

/// `"GreenLED"`
pub open spec fn spec_label_green_led() -> Seq<u8> {
    seq![71u8, 114u8, 101u8, 101u8, 110u8, 76u8, 69u8, 68u8]
}

/// `"GreenLED"`
pub fn label_green_led() -> (r: Vec<u8>)
    ensures
        r@ == spec_label_green_led(),
{
    let a: [u8; 8] = [71, 114, 101, 101, 110, 76, 69, 68];
    assert(a@ =~= spec_label_green_led());
    bytes_of(a)
}

/// `"BlueLED"`
pub open spec fn spec_label_blue_led() -> Seq<u8> {
    seq![66u8, 108u8, 117u8, 101u8, 76u8, 69u8, 68u8]
}

/// `"BlueLED"`
pub fn label_blue_led() -> (r: Vec<u8>)
    ensures
        r@ == spec_label_blue_led(),
{
    let a: [u8; 7] = [66, 108, 117, 101, 76, 69, 68];
    assert(a@ =~= spec_label_blue_led());
    bytes_of(a)
}

/// `"Charging"`
pub open spec fn spec_label_charging() -> Seq<u8> {
    seq![67u8, 104u8, 97u8, 114u8, 103u8, 105u8, 110u8, 103u8]
}

/// `"Charging"`
pub fn label_charging() -> (r: Vec<u8>)
    ensures
        r@ == spec_label_charging(),
{
    let a: [u8; 8] = [67, 104, 97, 114, 103, 105, 110, 103];
    assert(a@ =~= spec_label_charging());
    bytes_of(a)
}

/// `"FastCharging"`
pub open spec fn spec_label_fast_charging() -> Seq<u8> {
    seq![70u8, 97u8, 115u8, 116u8, 67u8, 104u8, 97u8, 114u8, 103u8, 105u8, 110u8, 103u8]
}

/// `"FastCharging"`
pub fn label_fast_charging() -> (r: Vec<u8>)
    ensures
        r@ == spec_label_fast_charging(),
{
    let a: [u8; 12] = [70, 97, 115, 116, 67, 104, 97, 114, 103, 105, 110, 103];
    assert(a@ =~= spec_label_fast_charging());
    bytes_of(a)
}

/// `"FullyCharged"`
pub open spec fn spec_label_fully_charged() -> Seq<u8> {
    seq![70u8, 117u8, 108u8, 108u8, 121u8, 67u8, 104u8, 97u8, 114u8, 103u8, 101u8, 100u8]
}

/// `"FullyCharged"`
pub fn label_fully_charged() -> (r: Vec<u8>)
    ensures
        r@ == spec_label_fully_charged(),
{
    let a: [u8; 12] = [70, 117, 108, 108, 121, 67, 104, 97, 114, 103, 101, 100];
    assert(a@ =~= spec_label_fully_charged());
    bytes_of(a)
}

/// `"core"`
pub open spec fn spec_device_type_core() -> Seq<u8> {
    seq![99u8, 111u8, 114u8, 101u8]
}

/// `"core"`
pub fn device_type_core() -> (r: Vec<u8>)
    ensures
        r@ == spec_device_type_core(),
{
    let a: [u8; 4] = [99, 111, 114, 101];
    assert(a@ =~= spec_device_type_core());
    bytes_of(a)
}

/// `"mousemat"`
pub open spec fn spec_device_type_mousemat() -> Seq<u8> {
    seq![109u8, 111u8, 117u8, 115u8, 101u8, 109u8, 97u8, 116u8]
}

/// `"mousemat"`
pub fn device_type_mousemat() -> (r: Vec<u8>)
    ensures
        r@ == spec_device_type_mousemat(),
{
    let a: [u8; 8] = [109, 111, 117, 115, 101, 109, 97, 116];
    assert(a@ =~= spec_device_type_mousemat());
    bytes_of(a)
}

/// `"mug"`
pub open spec fn spec_device_type_mug() -> Seq<u8> {
    seq![109u8, 117u8, 103u8]
}

/// `"mug"`
pub fn device_type_mug() -> (r: Vec<u8>)
    ensures
        r@ == spec_device_type_mug(),
{
    let a: [u8; 3] = [109, 117, 103];
    assert(a@ =~= spec_device_type_mug());
    bytes_of(a)
}

/// `"accessory"`
pub open spec fn spec_device_type_accessory() -> Seq<u8> {
    seq![97u8, 99u8, 99u8, 101u8, 115u8, 115u8, 111u8, 114u8, 121u8]
}

/// `"accessory"`
pub fn device_type_accessory() -> (r: Vec<u8>)
    ensures
        r@ == spec_device_type_accessory(),
{
    let a: [u8; 9] = [97, 99, 99, 101, 115, 115, 111, 114, 121];
    assert(a@ =~= spec_device_type_accessory());
    bytes_of(a)
}

/// `"mousepad"`
pub open spec fn spec_device_type_mousepad() -> Seq<u8> {
    seq![109u8, 111u8, 117u8, 115u8, 101u8, 112u8, 97u8, 100u8]
}

/// `"mousepad"`
pub fn device_type_mousepad() -> (r: Vec<u8>)
    ensures
        r@ == spec_device_type_mousepad(),
{
    let a: [u8; 8] = [109, 111, 117, 115, 101, 112, 97, 100];
    assert(a@ =~= spec_device_type_mousepad());
    bytes_of(a)
}

/// `"de_DE"`
pub open spec fn spec_layout_de_de() -> Seq<u8> {
    seq![100u8, 101u8, 95u8, 68u8, 69u8]
}

/// `"de_DE"`
pub fn layout_de_de() -> (r: Vec<u8>)
    ensures
        r@ == spec_layout_de_de(),
{
    let a: [u8; 5] = [100, 101, 95, 68, 69];
    assert(a@ =~= spec_layout_de_de());
    bytes_of(a)
}

/// `"el_GR"`
pub open spec fn spec_layout_el_gr() -> Seq<u8> {
    seq![101u8, 108u8, 95u8, 71u8, 82u8]
}

/// `"el_GR"`
pub fn layout_el_gr() -> (r: Vec<u8>)
    ensures
        r@ == spec_layout_el_gr(),
{
    let a: [u8; 5] = [101, 108, 95, 71, 82];
    assert(a@ =~= spec_layout_el_gr());
    bytes_of(a)
}

/// `"en_GB"`
pub open spec fn spec_layout_en_gb() -> Seq<u8> {
    seq![101u8, 110u8, 95u8, 71u8, 66u8]
}

/// `"en_GB"`
pub fn layout_en_gb() -> (r: Vec<u8>)
    ensures
        r@ == spec_layout_en_gb(),
{
    let a: [u8; 5] = [101, 110, 95, 71, 66];
    assert(a@ =~= spec_layout_en_gb());
    bytes_of(a)
}

/// `"en_US"`
pub open spec fn spec_layout_en_us() -> Seq<u8> {
    seq![101u8, 110u8, 95u8, 85u8, 83u8]
}

/// `"en_US"`
pub fn layout_en_us() -> (r: Vec<u8>)
    ensures
        r@ == spec_layout_en_us(),
{
    let a: [u8; 5] = [101, 110, 95, 85, 83];
    assert(a@ =~= spec_layout_en_us());
    bytes_of(a)
}

/// `"en_US_mac"`
pub open spec fn spec_layout_en_us_mac() -> Seq<u8> {
    seq![101u8, 110u8, 95u8, 85u8, 83u8, 95u8, 109u8, 97u8, 99u8]
}

/// `"en_US_mac"`
pub fn layout_en_us_mac() -> (r: Vec<u8>)
    ensures
        r@ == spec_layout_en_us_mac(),
{
    let a: [u8; 9] = [101, 110, 95, 85, 83, 95, 109, 97, 99];
    assert(a@ =~= spec_layout_en_us_mac());
    bytes_of(a)
}

/// `"es_ES"`
pub open spec fn spec_layout_es_es() -> Seq<u8> {
    seq![101u8, 115u8, 95u8, 69u8, 83u8]
}

/// `"es_ES"`
pub fn layout_es_es() -> (r: Vec<u8>)
    ensures
        r@ == spec_layout_es_es(),
{
    let a: [u8; 5] = [101, 115, 95, 69, 83];
    assert(a@ =~= spec_layout_es_es());
    bytes_of(a)
}

/// `"fr_FR"`
pub open spec fn spec_layout_fr_fr() -> Seq<u8> {
    seq![102u8, 114u8, 95u8, 70u8, 82u8]
}

/// `"fr_FR"`
pub fn layout_fr_fr() -> (r: Vec<u8>)
    ensures
        r@ == spec_layout_fr_fr(),
{
    let a: [u8; 5] = [102, 114, 95, 70, 82];
    assert(a@ =~= spec_layout_fr_fr());
    bytes_of(a)
}

/// `"it_IT"`
pub open spec fn spec_layout_it_it() -> Seq<u8> {
    seq![105u8, 116u8, 95u8, 73u8, 84u8]
}

/// `"it_IT"`
pub fn layout_it_it() -> (r: Vec<u8>)
    ensures
        r@ == spec_layout_it_it(),
{
    let a: [u8; 5] = [105, 116, 95, 73, 84];
    assert(a@ =~= spec_layout_it_it());
    bytes_of(a)
}

/// `"ja_JP"`
pub open spec fn spec_layout_ja_jp() -> Seq<u8> {
    seq![106u8, 97u8, 95u8, 74u8, 80u8]
}

/// `"ja_JP"`
pub fn layout_ja_jp() -> (r: Vec<u8>)
    ensures
        r@ == spec_layout_ja_jp(),
{
    let a: [u8; 5] = [106, 97, 95, 74, 80];
    assert(a@ =~= spec_layout_ja_jp());
    bytes_of(a)
}

/// `"pt_PT"`
pub open spec fn spec_layout_pt_pt() -> Seq<u8> {
    seq![112u8, 116u8, 95u8, 80u8, 84u8]
}

/// `"pt_PT"`
pub fn layout_pt_pt() -> (r: Vec<u8>)
    ensures
        r@ == spec_layout_pt_pt(),
{
    let a: [u8; 5] = [112, 116, 95, 80, 84];
    assert(a@ =~= spec_layout_pt_pt());
    bytes_of(a)
}

/// `"German"`
pub open spec fn spec_layout_name_german() -> Seq<u8> {
    seq![71u8, 101u8, 114u8, 109u8, 97u8, 110u8]
}

/// `"German"`
pub fn layout_name_german() -> (r: Vec<u8>)
    ensures
        r@ == spec_layout_name_german(),
{
    let a: [u8; 6] = [71, 101, 114, 109, 97, 110];
    assert(a@ =~= spec_layout_name_german());
    bytes_of(a)
}

/// `"Greek"`
pub open spec fn spec_layout_name_greek() -> Seq<u8> {
    seq![71u8, 114u8, 101u8, 101u8, 107u8]
}

/// `"Greek"`
pub fn layout_name_greek() -> (r: Vec<u8>)
    ensures
        r@ == spec_layout_name_greek(),
{
    let a: [u8; 5] = [71, 114, 101, 101, 107];
    assert(a@ =~= spec_layout_name_greek());
    bytes_of(a)
}

/// `"UK"`
pub open spec fn spec_layout_name_uk() -> Seq<u8> {
    seq![85u8, 75u8]
}

/// `"UK"`
pub fn layout_name_uk() -> (r: Vec<u8>)
    ensures
        r@ == spec_layout_name_uk(),
{
    let a: [u8; 2] = [85, 75];
    assert(a@ =~= spec_layout_name_uk());
    bytes_of(a)
}

/// `"US"`
pub open spec fn spec_layout_name_us() -> Seq<u8> {
    seq![85u8, 83u8]
}

/// `"US"`
pub fn layout_name_us() -> (r: Vec<u8>)
    ensures
        r@ == spec_layout_name_us(),
{
    let a: [u8; 2] = [85, 83];
    assert(a@ =~= spec_layout_name_us());
    bytes_of(a)
}

/// `"US-mac"`
pub open spec fn spec_layout_name_us_mac() -> Seq<u8> {
    seq![85u8, 83u8, 45u8, 109u8, 97u8, 99u8]
}

/// `"US-mac"`
pub fn layout_name_us_mac() -> (r: Vec<u8>)
    ensures
        r@ == spec_layout_name_us_mac(),
{
    let a: [u8; 6] = [85, 83, 45, 109, 97, 99];
    assert(a@ =~= spec_layout_name_us_mac());
    bytes_of(a)
}

/// `"Spanish"`
pub open spec fn spec_layout_name_spanish() -> Seq<u8> {
    seq![83u8, 112u8, 97u8, 110u8, 105u8, 115u8, 104u8]
}

/// `"Spanish"`
pub fn layout_name_spanish() -> (r: Vec<u8>)
    ensures
        r@ == spec_layout_name_spanish(),
{
    let a: [u8; 7] = [83, 112, 97, 110, 105, 115, 104];
    assert(a@ =~= spec_layout_name_spanish());
    bytes_of(a)
}

/// `"French"`
pub open spec fn spec_layout_name_french() -> Seq<u8> {
    seq![70u8, 114u8, 101u8, 110u8, 99u8, 104u8]
}

/// `"French"`
pub fn layout_name_french() -> (r: Vec<u8>)
    ensures
        r@ == spec_layout_name_french(),
{
    let a: [u8; 6] = [70, 114, 101, 110, 99, 104];
    assert(a@ =~= spec_layout_name_french());
    bytes_of(a)
}

/// `"Italian"`
pub open spec fn spec_layout_name_italian() -> Seq<u8> {
    seq![73u8, 116u8, 97u8, 108u8, 105u8, 97u8, 110u8]
}

/// `"Italian"`
pub fn layout_name_italian() -> (r: Vec<u8>)
    ensures
        r@ == spec_layout_name_italian(),
{
    let a: [u8; 7] = [73, 116, 97, 108, 105, 97, 110];
    assert(a@ =~= spec_layout_name_italian());
    bytes_of(a)
}

/// `"Japanese"`
pub open spec fn spec_layout_name_japanese() -> Seq<u8> {
    seq![74u8, 97u8, 112u8, 97u8, 110u8, 101u8, 115u8, 101u8]
}

/// `"Japanese"`
pub fn layout_name_japanese() -> (r: Vec<u8>)
    ensures
        r@ == spec_layout_name_japanese(),
{
    let a: [u8; 8] = [74, 97, 112, 97, 110, 101, 115, 101];
    assert(a@ =~= spec_layout_name_japanese());
    bytes_of(a)
}

/// `"Portuguese"`
pub open spec fn spec_layout_name_portuguese() -> Seq<u8> {
    seq![80u8, 111u8, 114u8, 116u8, 117u8, 103u8, 117u8, 101u8, 115u8, 101u8]
}

/// `"Portuguese"`
pub fn layout_name_portuguese() -> (r: Vec<u8>)
    ensures
        r@ == spec_layout_name_portuguese(),
{
    let a: [u8; 10] = [80, 111, 114, 116, 117, 103, 117, 101, 115, 101];
    assert(a@ =~= spec_layout_name_portuguese());
    bytes_of(a)
}

/// `"org.razer"`
pub open spec fn spec_service_name() -> Seq<u8> {
    seq![111u8, 114u8, 103u8, 46u8, 114u8, 97u8, 122u8, 101u8, 114u8]
}

/// `"org.razer"`
pub fn service_name() -> (r: Vec<u8>)
    ensures
        r@ == spec_service_name(),
{
    let a: [u8; 9] = [111, 114, 103, 46, 114, 97, 122, 101, 114];
    assert(a@ =~= spec_service_name());
    bytes_of(a)
}

/// `"/org/razer"`
pub open spec fn spec_root_path() -> Seq<u8> {
    seq![47u8, 111u8, 114u8, 103u8, 47u8, 114u8, 97u8, 122u8, 101u8, 114u8]
}

/// `"/org/razer"`
pub fn root_path() -> (r: Vec<u8>)
    ensures
        r@ == spec_root_path(),
{
    let a: [u8; 10] = [47, 111, 114, 103, 47, 114, 97, 122, 101, 114];
    assert(a@ =~= spec_root_path());
    bytes_of(a)
}

/// `"/org/razer/device/"`
pub open spec fn spec_device_path_prefix() -> Seq<u8> {
    seq![47u8, 111u8, 114u8, 103u8, 47u8, 114u8, 97u8, 122u8, 101u8, 114u8, 47u8, 100u8, 101u8, 118u8, 105u8, 99u8, 101u8, 47u8]
}

/// `"/org/razer/device/"`
pub fn device_path_prefix() -> (r: Vec<u8>)
    ensures
        r@ == spec_device_path_prefix(),
{
    let a: [u8; 18] = [47, 111, 114, 103, 47, 114, 97, 122, 101, 114, 47, 100, 101, 118, 105, 99, 101, 47];
    assert(a@ =~= spec_device_path_prefix());
    bytes_of(a)
}

} // verus!
