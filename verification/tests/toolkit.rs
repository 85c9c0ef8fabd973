use ghost_os_toolkit::mock::MockOps;
use ghost_os_toolkit::monitor::SystemMonitor;
use ghost_os_toolkit::windows::WindowsOps;
use ghost_os_toolkit::{OsToolkit, OsToolkitConfig, OsToolkitError, ProcessInfo, SystemInfo,
                       SystemResources};

fn open_config() -> OsToolkitConfig {
    OsToolkitConfig {
        enable_hardware_access: true,
        enable_process_manipulation: true,
        enable_memory_manipulation: true,
    }
}

fn sample_info(label: &str) -> SystemInfo {
    SystemInfo {
        architecture: "test-arch".to_string(),
        os_type: label.to_string(),
        memory_total: 1024,
        cpu_cores: 2,
        cpu_features: vec!["feat".to_string()],
    }
}

fn scripted(infos: usize, process_lists: usize) -> MockOps {
    let mut mock = MockOps::new();
    for i in 0..infos {
        mock.info_script.push(sample_info(&format!("info-{}", i)));
    }
    for i in 0..process_lists {
        mock.process_script.push(vec![ProcessInfo {
            pid: i as u32 + 1,
            name: format!("proc-{}", i),
            memory_usage: 100,
            cpu_usage: 50,
        }]);
    }
    mock
}

#[test]
fn default_config_disables_every_gate() {
    let config = OsToolkitConfig::default();
    assert!(!config.enable_hardware_access);
    assert!(!config.enable_process_manipulation);
    assert!(!config.enable_memory_manipulation);
}

#[test]
fn no_backend_means_platform_not_supported() {
    let mut toolkit: OsToolkit<MockOps> = OsToolkit::new(open_config());
    assert!(matches!(
        toolkit.get_system_info(),
        Err(OsToolkitError::PlatformNotSupported(_))
    ));
    assert!(matches!(
        toolkit.modify_memory_protection(0x1000, 4096, true),
        Err(OsToolkitError::PlatformNotSupported(_))
    ));
    assert!(matches!(
        toolkit.enumerate_processes(),
        Err(OsToolkitError::PlatformNotSupported(_))
    ));
}

#[test]
fn disabled_memory_gate_never_reaches_the_backend() {
    let config = OsToolkitConfig::default();
    let mut toolkit = OsToolkit::with_backend(config, MockOps::new());
    let r = toolkit.modify_memory_protection(0x1000, 4096, true);
    match r {
        Err(OsToolkitError::PermissionDenied(msg)) => {
            assert_eq!(msg, "Memory manipulation not enabled");
        }
        other => panic!("expected PermissionDenied, got {:?}", other.is_ok()),
    }
    // the invocation count proves the call never reached the backend
    assert_eq!(toolkit.backend.as_ref().unwrap().protect_calls, 0);

    let mut open = OsToolkit::with_backend(open_config(), MockOps::new());
    assert!(open.modify_memory_protection(0x1000, 4096, true).is_ok());
    assert_eq!(open.backend.as_ref().unwrap().protect_calls, 1);
}

#[test]
fn disabled_process_gate_never_reaches_the_backend() {
    let config = OsToolkitConfig::default();
    let mut toolkit = OsToolkit::with_backend(config, scripted(0, 1));
    assert!(matches!(
        toolkit.enumerate_processes(),
        Err(OsToolkitError::PermissionDenied(_))
    ));
    assert_eq!(toolkit.backend.as_ref().unwrap().list_calls, 0);
}

#[test]
fn scripted_protect_failure_surfaces_as_hardware_error() {
    let mut mock = MockOps::new();
    mock.protect_succeeds = false;
    let mut toolkit = OsToolkit::with_backend(open_config(), mock);
    assert!(matches!(
        toolkit.modify_memory_protection(8, 16, false),
        Err(OsToolkitError::HardwareError(_))
    ));
}

#[test]
fn info_queries_need_no_gate() {
    let mut toolkit = OsToolkit::with_backend(OsToolkitConfig::default(), scripted(1, 0));
    let info = toolkit.get_system_info().unwrap();
    assert_eq!(info.os_type, "info-0");
    assert_eq!(toolkit.backend.as_ref().unwrap().info_calls, 1);
}

#[test]
fn latest_is_none_before_first_tick_and_newest_after() {
    let toolkit = OsToolkit::with_backend(open_config(), scripted(2, 0));
    let mut monitor = SystemMonitor::new(toolkit, 3);
    assert!(monitor.get_latest_metrics().is_none());
    assert!(monitor.get_latest_process_metrics().is_none());

    let report = monitor.tick(11);
    assert!(report.system_result.is_ok());
    assert_eq!(monitor.get_latest_metrics().unwrap().timestamp, 11);

    monitor.tick(12);
    assert_eq!(monitor.get_latest_metrics().unwrap().timestamp, 12);

    // script exhausted: the failed collection leaves the latest unchanged
    let report = monitor.tick(13);
    assert!(report.system_result.is_err());
    assert_eq!(monitor.get_latest_metrics().unwrap().timestamp, 12);
}

#[test]
fn failed_process_listing_leaves_process_history_unchanged() {
    // The backend reports PlatformNotSupported for process listing while
    // system info succeeds: the system buffer still advances, the process
    // buffer does not.
    let toolkit = OsToolkit::with_backend(open_config(), scripted(2, 0));
    let mut monitor = SystemMonitor::new(toolkit, 3);
    let report = monitor.tick(1);
    assert!(report.system_result.is_ok());
    assert!(matches!(
        report.process_result,
        Err(OsToolkitError::PlatformNotSupported(_))
    ));
    assert_eq!(monitor.get_metrics_history().len(), 1);
    assert_eq!(monitor.get_process_metrics_history().len(), 0);
    // the listing was attempted (and failed); it was not gated off
    assert!(monitor.toolkit.backend.as_ref().unwrap().list_calls >= 1);
}

#[test]
fn process_ticks_record_one_snapshot_per_success() {
    let toolkit = OsToolkit::with_backend(open_config(), scripted(2, 2));
    let mut monitor = SystemMonitor::new(toolkit, 3);
    let report = monitor.tick(5);
    assert_eq!(report.process_result.unwrap(), 1);
    let latest = monitor.get_latest_process_metrics().unwrap();
    assert_eq!(latest.len(), 1);
    assert_eq!(latest[0].pid, 1);
    assert_eq!(latest[0].name, "proc-0");
    assert_eq!(latest[0].memory_usage, 100);
    assert_eq!(latest[0].cpu_usage, 50);

    monitor.tick(6);
    assert_eq!(monitor.get_process_metrics_history().len(), 2);
}

#[test]
fn five_ticks_capacity_three_keep_timestamps_3_4_5() {
    // End to end: capacity 3, five successive successful collections
    // stamped 1..=5; the history reads back [3, 4, 5] in that order.
    let toolkit = OsToolkit::with_backend(open_config(), scripted(5, 0));
    let mut monitor = SystemMonitor::new(toolkit, 3);
    for t in 1..=5u64 {
        let report = monitor.tick(t);
        assert!(report.system_result.is_ok());
    }
    let stamps: Vec<u64> = monitor
        .get_metrics_history()
        .iter()
        .map(|m| m.timestamp)
        .collect();
    assert_eq!(stamps, vec![3, 4, 5]);
}

#[test]
fn samples_carry_the_resource_figures() {
    let mut mock = scripted(1, 0);
    mock.resources_script.push(SystemResources {
        mem_total: 1000,
        mem_available: 250,
        load_one: 17,
        load_five: 23,
        load_fifteen: 31,
    });
    let toolkit = OsToolkit::with_backend(open_config(), mock);
    let mut monitor = SystemMonitor::new(toolkit, 2);
    let report = monitor.tick(99);
    let sample = report.system_result.unwrap();
    assert_eq!(sample.timestamp, 99);
    assert_eq!(sample.memory_usage, 75);
    assert_eq!(sample.cpu_usage, 0);
    assert_eq!(sample.load_one, 17);
    assert_eq!(sample.load_five, 23);
    assert_eq!(sample.load_fifteen, 31);
    assert_eq!(sample.process_count, 0);
}

#[test]
fn windows_backend_reports_platform_not_supported() {
    let mut toolkit = OsToolkit::with_backend(open_config(), WindowsOps::new());
    assert!(matches!(
        toolkit.get_system_info(),
        Err(OsToolkitError::PlatformNotSupported(_))
    ));
    assert!(matches!(
        toolkit.enumerate_processes(),
        Err(OsToolkitError::PlatformNotSupported(_))
    ));
    assert!(matches!(
        toolkit.modify_memory_protection(0, 0, true),
        Err(OsToolkitError::PlatformNotSupported(_))
    ));
    assert!(matches!(
        toolkit.get_system_resources(),
        Err(OsToolkitError::PlatformNotSupported(_))
    ));
}

#[test]
fn error_messages_carry_their_description() {
    let e = OsToolkitError::HardwareError("bad register".to_string());
    assert_eq!(e.message(), "bad register");
    let e = OsToolkitError::PermissionDenied("no".to_string());
    assert_eq!(e.message(), "no");
    let e = OsToolkitError::PlatformNotSupported("none".to_string());
    assert_eq!(e.message(), "none");
}

#[test]
fn mock_counters_start_at_zero() {
    let mock = MockOps::new();
    assert_eq!(mock.info_calls, 0);
    assert_eq!(mock.protect_calls, 0);
    assert_eq!(mock.list_calls, 0);
    assert_eq!(mock.resources_calls, 0);
    assert!(mock.protect_succeeds);
}
