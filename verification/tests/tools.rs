use ghost_os_toolkit::arm::{arm_arch_label, decode_arm_features};
use ghost_os_toolkit::integrity::{bytes_equal, compare_with_baseline, sha256_hex, trim_ascii};
use ghost_os_toolkit::linux::{protection_flags, resource_writes, LinuxOps};
use ghost_os_toolkit::monitor::{build_process_metrics, calculate_memory_usage};
use ghost_os_toolkit::os_release::parse_pretty_name;
use ghost_os_toolkit::port_scanner::{parse_port_range, PortRangeError};
use ghost_os_toolkit::text::decimal_string;
use ghost_os_toolkit::{OsToolkit, OsToolkitConfig, ProcessInfo};

#[test]
fn sha256_of_abc_is_the_published_digest() {
    let hex = sha256_hex(&b"abc".to_vec());
    assert_eq!(
        String::from_utf8(hex).unwrap(),
        "ba7816bf8f01cfea414140de5dae2223b00361a396177a9cb410ff61f20015ad"
    );
}

#[test]
fn sha256_of_empty_input_is_the_published_digest() {
    let hex = sha256_hex(&Vec::new());
    assert_eq!(
        String::from_utf8(hex).unwrap(),
        "e3b0c44298fc1c149afbf4c8996fb92427ae41e4649b934ca495991b7852b855"
    );
}

#[test]
fn baseline_comparison_ignores_surrounding_whitespace() {
    let hash = sha256_hex(&b"abc".to_vec());
    let baseline =
        b"  ba7816bf8f01cfea414140de5dae2223b00361a396177a9cb410ff61f20015ad\n".to_vec();
    assert!(compare_with_baseline(&hash, &baseline));
    let wrong = b"0000000000000000000000000000000000000000000000000000000000000000".to_vec();
    assert!(!compare_with_baseline(&hash, &wrong));
}

#[test]
fn trim_strips_only_the_edges() {
    assert_eq!(trim_ascii(&b"\t a b \r\n".to_vec()), b"a b".to_vec());
    assert_eq!(trim_ascii(&b"abc".to_vec()), b"abc".to_vec());
    assert_eq!(trim_ascii(&b" \n\t ".to_vec()), Vec::<u8>::new());
    assert_eq!(trim_ascii(&Vec::new()), Vec::<u8>::new());
}

#[test]
fn byte_equality_is_exact() {
    assert!(bytes_equal(&b"same".to_vec(), &b"same".to_vec()));
    assert!(!bytes_equal(&b"same".to_vec(), &b"sama".to_vec()));
    assert!(!bytes_equal(&b"same".to_vec(), &b"sam".to_vec()));
}

#[test]
fn port_ranges_parse_like_the_scanner_expects() {
    assert_eq!(parse_port_range("1-1024"), Ok((1, 1024)));
    assert_eq!(parse_port_range("80"), Ok((80, 80)));
    assert_eq!(parse_port_range("65535"), Ok((65535, 65535)));
    assert_eq!(parse_port_range("0-65535"), Ok((0, 65535)));
}

#[test]
fn bad_port_ranges_name_the_failing_side() {
    assert_eq!(parse_port_range(""), Err(PortRangeError::InvalidPort));
    assert_eq!(parse_port_range("65536"), Err(PortRangeError::InvalidPort));
    assert_eq!(parse_port_range("9999999999"), Err(PortRangeError::InvalidPort));
    assert_eq!(parse_port_range("abc"), Err(PortRangeError::InvalidPort));
    assert_eq!(parse_port_range("x-80"), Err(PortRangeError::InvalidStart));
    assert_eq!(parse_port_range("-80"), Err(PortRangeError::InvalidStart));
    assert_eq!(parse_port_range("80-"), Err(PortRangeError::InvalidEnd));
    assert_eq!(parse_port_range("80-x"), Err(PortRangeError::InvalidEnd));
    assert_eq!(parse_port_range("80-70000"), Err(PortRangeError::InvalidEnd));
    assert_eq!(parse_port_range("1-2-3"), Err(PortRangeError::InvalidFormat));
    assert_eq!(parse_port_range("--"), Err(PortRangeError::InvalidFormat));
}

#[test]
fn decimal_rendering_matches_std() {
    assert_eq!(decimal_string(0), "0");
    assert_eq!(decimal_string(7), "7");
    assert_eq!(decimal_string(12345), "12345");
    assert_eq!(decimal_string(u64::MAX), u64::MAX.to_string());
}

#[test]
fn memory_percentage_is_used_over_total() {
    assert_eq!(calculate_memory_usage(1000, 250), 75);
    assert_eq!(calculate_memory_usage(1000, 1000), 0);
    assert_eq!(calculate_memory_usage(0, 5), 0);
    assert_eq!(calculate_memory_usage(3, 1), 66);
    assert_eq!(calculate_memory_usage(5, 7), 0);
}

#[test]
fn protection_flags_translate_the_intent() {
    assert_eq!(protection_flags(true), 1);
    assert_eq!(protection_flags(false), 7);
}

#[test]
fn resource_writes_plan_the_cgroup_files() {
    let writes = resource_writes(42, Some(512), Some(1 << 20), );
    assert_eq!(
        writes,
        vec![
            (
                "/sys/fs/cgroup/cpu/ghost/42/cpu.shares".to_string(),
                "512".to_string()
            ),
            (
                "/sys/fs/cgroup/cpu/ghost/42/memory.limit_in_bytes".to_string(),
                "1048576".to_string()
            ),
            (
                "/sys/fs/cgroup/cpu/ghost/42/tasks".to_string(),
                "42".to_string()
            ),
        ]
    );
    let only_task = resource_writes(7, None, None);
    assert_eq!(
        only_task,
        vec![("/sys/fs/cgroup/cpu/ghost/7/tasks".to_string(), "7".to_string())]
    );
}

#[test]
fn arm_feature_bits_decode_in_order() {
    assert_eq!(decode_arm_features(0), Vec::<String>::new());
    assert_eq!(decode_arm_features(0x10), vec!["thumb".to_string()]);
    assert_eq!(decode_arm_features(0x20), vec!["thumb2".to_string()]);
    assert_eq!(
        decode_arm_features(0x70),
        vec![
            "thumb".to_string(),
            "thumb2".to_string(),
            "jazelle".to_string()
        ]
    );
}

#[test]
fn arm_arch_labels_carry_the_variant() {
    assert_eq!(arm_arch_label(6), "ARMv6-M");
    assert_eq!(arm_arch_label(7), "ARMv7-M");
    assert_eq!(arm_arch_label(8), "ARMv8-M");
}

#[test]
fn process_metrics_copy_the_snapshot() {
    let procs = vec![
        ProcessInfo {
            pid: 3,
            name: "init".to_string(),
            memory_usage: 4096,
            cpu_usage: 120,
        },
        ProcessInfo {
            pid: 9,
            name: "idle".to_string(),
            memory_usage: 0,
            cpu_usage: 0,
        },
    ];
    let metrics = build_process_metrics(&procs);
    assert_eq!(metrics.len(), 2);
    assert_eq!(metrics[0].pid, 3);
    assert_eq!(metrics[0].name, "init");
    assert_eq!(metrics[0].memory_usage, 4096);
    assert_eq!(metrics[0].cpu_usage, 120);
    assert_eq!(metrics[0].disk_io.read_bytes_per_sec, 0);
    assert_eq!(metrics[0].network_io.bytes_sent, 0);
    assert_eq!(metrics[1].pid, 9);
}

#[test]
fn proc_backend_reads_this_machine() {
    // procfs is available here: the backend constructs and reports real
    // figures.
    let ops = LinuxOps::new("x86_64".to_string(), "Linux".to_string()).unwrap();
    let config = OsToolkitConfig {
        enable_hardware_access: true,
        enable_process_manipulation: true,
        enable_memory_manipulation: true,
    };
    let mut toolkit = OsToolkit::with_backend(config, ops);

    let info = toolkit.get_system_info().unwrap();
    assert_eq!(info.architecture, "x86_64");
    assert!(info.os_type.starts_with("Linux "));
    assert!(info.memory_total > 0);
    assert!(info.cpu_cores > 0);

    let procs = toolkit.enumerate_processes().unwrap();
    assert!(!procs.is_empty());

    let resources = toolkit.get_system_resources().unwrap();
    assert!(resources.mem_total > 0);
    assert!(resources.mem_available <= resources.mem_total);
    assert_eq!(resources.load_one, 0);
}

#[test]
fn pretty_name_is_extracted_from_os_release_content() {
    let content = b"NAME=\"Debian GNU/Linux\"\nPRETTY_NAME=\"Debian GNU/Linux 12 (bookworm)\"\nID=debian\n".to_vec();
    assert_eq!(
        parse_pretty_name(&content),
        b"Debian GNU/Linux 12 (bookworm)".to_vec()
    );
    // unquoted values pass through; the first match wins
    let plain = b"PRETTY_NAME=Alpine\nPRETTY_NAME=\"Other\"\n".to_vec();
    assert_eq!(parse_pretty_name(&plain), b"Alpine".to_vec());
    // the value stops at a second equals sign, as a plain split would
    let tricky = b"PRETTY_NAME=\"X=Y\"".to_vec();
    assert_eq!(parse_pretty_name(&tricky), b"X".to_vec());
    // without the line the description is unknown
    let none = b"NAME=Void\nID=void\n".to_vec();
    assert_eq!(parse_pretty_name(&none), b"Unknown".to_vec());
    assert_eq!(parse_pretty_name(&Vec::new()), b"Unknown".to_vec());
}
