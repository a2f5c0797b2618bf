use rainze_core::system_monitor::SystemMonitor;
use rainze_core::usage::{CpuUsage, Percentage};

fn percent_of(usage: Percentage) -> f32 {
    (usage.part() as f32 / usage.whole() as f32) * 100.0
}

fn cpu_percent_of(usage: CpuUsage) -> f32 {
    f32::from_bits(usage.to_bits())
}

#[test]
fn test_cpu_usage_range() {
    let mut monitor = SystemMonitor::new();
    let usage = cpu_percent_of(monitor.get_cpu_usage());
    assert!(usage >= 0.0 && usage <= 100.0);
}

#[test]
fn test_memory_usage_range() {
    let mut monitor = SystemMonitor::new();
    let usage = percent_of(monitor.get_memory_usage());
    assert!(usage >= 0.0 && usage <= 100.0);
}

#[test]
fn memory_usage_of_this_machine_is_a_share_of_the_total() {
    let mut monitor = SystemMonitor::new();
    let usage = monitor.get_memory_usage();
    assert!(usage.whole() > 0);
    assert!(usage.is_in_range());
    assert!(usage.part() <= usage.whole());
}

#[test]
fn fullscreen_is_never_detected() {
    let mut monitor = SystemMonitor::new();
    assert!(!monitor.is_fullscreen());
    monitor.refresh();
    assert!(!monitor.is_fullscreen());
    let _ = monitor.is_meeting_app();
    assert!(!monitor.is_fullscreen());
}

#[test]
fn refresh_then_cpu_usage_is_in_range() {
    let mut monitor = SystemMonitor::new();
    monitor.refresh();
    let usage = monitor.get_cpu_usage();
    assert!(usage.is_in_range());
    let percent = cpu_percent_of(usage);
    assert!(percent >= 0.0 && percent <= 100.0);
}

#[test]
fn meeting_app_detection_runs_on_the_real_process_table() {
    // What runs on this machine is not known, so only the calls are made.
    let mut monitor = SystemMonitor::new();
    let _ = monitor.is_meeting_app();
    monitor.refresh();
    let _ = monitor.is_meeting_app();
}

#[test]
fn default_monitor_answers_like_a_new_one() {
    let mut monitor = SystemMonitor::default();
    assert!(!monitor.is_fullscreen());
    let usage = monitor.get_memory_usage();
    assert!(usage.whole() > 0);
}
