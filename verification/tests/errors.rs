use wincap::error::{hr_call, require_some, unsigned_code, WincapError};
use wincap::runtime::{com_report, version};

#[test]
fn code_errors_are_described() {
    let e = WincapError::hresult("d3d_device", -2147024891, "CreateDevice");
    assert_eq!(e.to_string(), "d3d_device: HRESULT 0x80070005 \u{2014} CreateDevice");
}

#[test]
fn small_codes_are_padded() {
    let e = WincapError::hresult("x", 0x1F, "y");
    assert_eq!(e.to_string(), "x: HRESULT 0x0000001F \u{2014} y");
}

#[test]
fn general_errors_are_described() {
    let e = WincapError::general("mf_encoder", "not initialized");
    assert_eq!(e.to_string(), "mf_encoder: not initialized");
}

#[test]
fn reports_carry_the_code_or_zero() {
    let p = WincapError::hresult("a", -5, "b").report();
    assert_eq!((p.component.as_str(), p.hresult, p.message.as_str()), ("a", -5, "b"));
    let p = WincapError::general("a", "b").report();
    assert_eq!((p.component.as_str(), p.hresult, p.message.as_str()), ("a", 0, "b"));
}

#[test]
fn system_errors_are_taken_over() {
    let outside = windows_core::Error::from_hresult(windows_core::HRESULT(-2147467259));
    let e = WincapError::from(outside);
    match e {
        WincapError::HResult { component, hr, .. } => {
            assert_eq!(component, "windows");
            assert_eq!(hr, -2147467259);
        }
        WincapError::General { .. } => panic!("no code"),
    }
}

#[test]
fn calls_are_handed_on() {
    assert_eq!(hr_call("c", Ok(5), "call").ok(), Some(5));
    let e = hr_call::<u32>("c", Err(-1), "call").unwrap_err();
    assert_eq!(e.to_string(), "c: HRESULT 0xFFFFFFFF \u{2014} call");
}

#[test]
fn missing_objects_are_errors() {
    assert_eq!(require_some("c", Some(5), "none").ok(), Some(5));
    let e = require_some::<u32>("c", None, "none came").unwrap_err();
    assert_eq!(e.to_string(), "c: none came");
}

#[test]
fn codes_are_read_as_bits() {
    assert_eq!(unsigned_code(-1), 0xFFFF_FFFF);
    assert_eq!(unsigned_code(i32::MIN), 0x8000_0000);
    assert_eq!(unsigned_code(7), 7);
}

#[test]
fn com_failures_are_told() {
    assert_eq!(com_report(0), None);
    assert_eq!(com_report(1), None);
    assert_eq!(com_report(0x8001_0106u32 as i32), None);
    assert_eq!(
        com_report(0x8007_000Eu32 as i32).as_deref(),
        Some("wincap: CoInitializeEx failed: 0x8007000E"),
    );
    assert_eq!(com_report(2).as_deref(), Some("wincap: CoInitializeEx failed: 0x00000002"));
}

#[test]
fn version_is_told() {
    assert_eq!(version(), "0.3.1");
}
