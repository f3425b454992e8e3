use obs_shell::log_filter::{
    gpu_log_accepts, main_log_accepts, starts_with, webview_accepts, LogLevel,
};

#[test]
fn prefixes() {
    assert!(starts_with("wgpu_core::device", "wgpu_core::"));
    assert!(starts_with("abc", ""));
    assert!(!starts_with("ab", "abc"));
    assert!(!starts_with("naga:x", "naga::"));
}

#[test]
fn webview_filter() {
    assert!(webview_accepts("obs_shell::ui"));
    assert!(!webview_accepts("webview::console"));
    assert!(!webview_accepts("log@bridge"));
    assert!(!webview_accepts("naga::front"));
}

#[test]
fn main_log_filter() {
    assert!(main_log_accepts("webview::console"));
    assert!(!main_log_accepts("wgpu_hal::vulkan"));
}

#[test]
fn gpu_log_filter() {
    assert!(gpu_log_accepts("wgpu_core::device", LogLevel::Info));
    assert!(gpu_log_accepts("naga::back", LogLevel::Error));
    assert!(!gpu_log_accepts("wgpu_core::device", LogLevel::Debug));
    assert!(!gpu_log_accepts("obs_shell", LogLevel::Error));
}
