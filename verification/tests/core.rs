use gpgpu::dom::StyleBorder;
use gpgpu::util::{format_bool, int_to_string, str_eq};
use gpgpu::{backend_to_string, Backend, Error};

#[test]
fn int_to_string_matches_std() {
    for v in [0i64, 7, 10, -1, -305, 123456789, i64::MAX, i64::MIN] {
        assert_eq!(int_to_string(v), v.to_string());
    }
}

#[test]
fn helpers() {
    assert!(str_eq("abc", "abc"));
    assert!(!str_eq("abc", "abd"));
    assert_eq!(format_bool(true), "✓");
    assert_eq!(format_bool(false), "✗");
}

#[test]
fn error_text() {
    let e = Error::Invalid("config".to_string(), "bad".to_string());
    assert_eq!(e.to_text(), "config Invalid: bad");
    let e = Error::SurfaceLost("p".to_string(), "m".to_string());
    assert_eq!(e.to_text(), "p SurfaceLost: m");
}

#[test]
fn backend_names() {
    assert_eq!(backend_to_string(Backend::Vulkan), "vulkan");
    assert_eq!(backend_to_string(Backend::Dx12), "directx12");
    assert_eq!(backend_to_string(Backend::BrowserWebGpu), "web");
}

#[test]
fn style_border_default() {
    assert_eq!(StyleBorder::default(), StyleBorder::NoBorder);
}
