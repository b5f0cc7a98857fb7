use cl_picker::platform_and_device::{annotate_device, annotate_devices, device_label,
    mb_of_bytes, DeviceReport, PlatformOrDevice};
use cl_picker::text::{parse_usize, u64_to_dec};

#[test]
fn memory_annotation_truncates_to_whole_megabytes() {
    assert_eq!(mb_of_bytes(8_000_000_000), 8000);
    assert_eq!(mb_of_bytes(1_999_999), 1);
    assert_eq!(mb_of_bytes(999_999), 0);
}

#[test]
fn device_label_embeds_the_memory_size() {
    assert_eq!(device_label("Tesla", 8_000_000_000), "Tesla [Memory=8000MB]");
    assert_eq!(device_label("iGPU", 1_999_999), "iGPU [Memory=1MB]");
}

#[test]
fn annotate_device_uses_reported_name_and_memory() {
    let d = annotate_device(DeviceReport {
        id: 5,
        name: Some(String::from("Tesla")),
        mem_bytes: Some(8_000_000_000),
    });
    assert_eq!(d, PlatformOrDevice::Dev(5, String::from("Tesla [Memory=8000MB]")));
}

#[test]
fn annotate_device_falls_back_on_missing_name_and_memory() {
    let d = annotate_device(DeviceReport { id: 6, name: None, mem_bytes: None });
    assert_eq!(d, PlatformOrDevice::Dev(6, String::from("No Name [Memory=0MB]")));
}

#[test]
fn annotate_devices_keeps_enumeration_order() {
    let out = annotate_devices(vec![
        DeviceReport { id: 1, name: Some(String::from("A")), mem_bytes: Some(2_000_000) },
        DeviceReport { id: 2, name: Some(String::from("B")), mem_bytes: Some(1_000_000) },
    ]);
    assert_eq!(out, vec![
        PlatformOrDevice::Dev(1, String::from("A [Memory=2MB]")),
        PlatformOrDevice::Dev(2, String::from("B [Memory=1MB]")),
    ]);
}

#[test]
fn labels_show_text_then_handle() {
    let p = PlatformOrDevice::Plat(42, String::from("Intel(R) OpenCL"));
    assert_eq!(p.label(), "Intel(R) OpenCL:42");
    let d = PlatformOrDevice::Dev(7, String::from("Tesla [Memory=8000MB]"));
    assert_eq!(d.label(), "Tesla [Memory=8000MB]:7");
}

#[test]
fn decimal_rendering() {
    assert_eq!(u64_to_dec(0), "0");
    assert_eq!(u64_to_dec(7), "7");
    assert_eq!(u64_to_dec(12345), "12345");
    assert_eq!(u64_to_dec(u64::MAX), "18446744073709551615");
}

#[test]
fn decimal_parsing() {
    assert_eq!(parse_usize("0"), Some(0));
    assert_eq!(parse_usize("123"), Some(123));
    assert_eq!(parse_usize(""), None);
    assert_eq!(parse_usize("12a"), None);
    assert_eq!(parse_usize("-4"), None);
    assert_eq!(parse_usize("99999999999999999999999999"), None);
}

#[test]
fn rendering_then_parsing_returns_the_number() {
    for n in [0u64, 1, 9, 10, 123456789, 4294967295] {
        assert_eq!(parse_usize(&u64_to_dec(n)), Some(n as usize));
    }
}
