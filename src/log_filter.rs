//! Which log records go to which log target: the webview console, the main
//! log file, and the log file of the GPU libraries.
use vstd::prelude::*;

verus! {

/// Log levels, from the most to the least severe.
#[derive(Clone, Copy, Debug, PartialEq, Eq, Structural)]
pub enum LogLevel {
    Error,
    Warn,
    Info,
    Debug,
    Trace,
}

/// The severity rank of a level: 1 for errors up to 5 for traces.
pub open spec fn level_rank(l: LogLevel) -> int {
    match l {
        LogLevel::Error => 1,
        LogLevel::Warn => 2,
        LogLevel::Info => 3,
        LogLevel::Debug => 4,
        LogLevel::Trace => 5,
    }
}

/// Whether `s` starts with `prefix`.
pub open spec fn has_prefix(s: Seq<char>, prefix: Seq<char>) -> bool {
    prefix.len() <= s.len() && s.subrange(0, prefix.len() as int) == prefix
}

/// Whether a record comes from the GPU libraries.
pub open spec fn is_gpu_target(target: Seq<char>) -> bool {
    has_prefix(target, "wgpu_core::"@) || has_prefix(target, "naga::"@) || has_prefix(
        target,
        "wgpu_hal::"@,
    )
}

/// Whether `s` starts with `prefix`.
pub fn starts_with(s: &str, prefix: &str) -> (r: bool)
    ensures
        r == has_prefix(s@, prefix@),
{
    let n = s.unicode_len();
    let m = prefix.unicode_len();
    if m > n {
        return false;
    }
    let mut i: usize = 0;
    while i < m
        invariant
            n == s@.len(),
            m == prefix@.len(),
            m <= n,
            i <= m,
            forall|j: int| 0 <= j < i ==> s@[j] == prefix@[j],
        decreases m - i,
    {
        if s.get_char(i) != prefix.get_char(i) {
            assert(s@.subrange(0, m as int)[i as int] != prefix@[i as int]);
            return false;
        }
        i = i + 1;
    }
    assert(s@.subrange(0, m as int) =~= prefix@);
    true
}

/// Whether a record of `target` comes from the GPU libraries.
pub fn gpu_target(target: &str) -> (r: bool)
    ensures
        r == is_gpu_target(target@),
{
    let core = starts_with(target, "wgpu_core::");
    let naga = starts_with(target, "naga::");
    let hal = starts_with(target, "wgpu_hal::");
    core || naga || hal
}

/// Whether the webview console shows a record of `target`: not one of the
/// webview itself, of the log bridge, or of the GPU libraries.
pub fn webview_accepts(target: &str) -> (r: bool)
    ensures
        r == !(has_prefix(target@, "webview"@) || has_prefix(target@, "log@"@) || is_gpu_target(
            target@,
        )),
{
    let webview = starts_with(target, "webview");
    let bridge = starts_with(target, "log@");
    let gpu = gpu_target(target);
    !(webview || bridge || gpu)
}

/// Whether the main log file takes a record of `target`: every one but those
/// of the GPU libraries.
pub fn main_log_accepts(target: &str) -> (r: bool)
    ensures
        r == !is_gpu_target(target@),
{
    !gpu_target(target)
}

/// Whether the GPU log file takes a record: those of the GPU libraries at
/// level `Info` or more severe.
pub fn gpu_log_accepts(target: &str, level: LogLevel) -> (r: bool)
    ensures
        r == (is_gpu_target(target@) && level_rank(level) <= level_rank(LogLevel::Info)),
{
    let gpu = gpu_target(target);
    let severe = match level {
        LogLevel::Error | LogLevel::Warn | LogLevel::Info => true,
        LogLevel::Debug | LogLevel::Trace => false,
    };
    gpu && severe
}

} // verus!
