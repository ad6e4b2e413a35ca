use ekaos_install::error::{CommandError, InstallerError};
use ekaos_install::system::bootmode::{detect_boot_mode, BootMode};
use ekaos_install::system::command::{command_result, launch_error, CommandExecutor, CommandOutput, MockExecutor, SafeCommand};
use ekaos_install::system::detection::{architecture_from, cpu_cores_from, cpu_model_from, is_nixos, is_root, parse_u64, ram_bytes_from, ram_kb_from};
use ekaos_install::system::network::{check_network, check_network_with_timeout, NetworkStatus};

#[test]
fn test_boot_mode_display() {
    assert_eq!(BootMode::Uefi.as_str(), "UEFI");
    assert_eq!(BootMode::Bios.as_str(), "Legacy BIOS");
    assert_eq!(BootMode::Unknown.as_str(), "Unknown");
}

#[test]
fn test_boot_mode_is_checks() {
    assert!(BootMode::Uefi.is_uefi());
    assert!(!BootMode::Uefi.is_bios());

    assert!(BootMode::Bios.is_bios());
    assert!(!BootMode::Bios.is_uefi());
}

#[test]
fn test_boot_mode_description() {
    assert!(BootMode::Uefi.description().contains("GPT"));
    assert!(BootMode::Bios.description().contains("MBR"));
}

#[test]
fn bootmode_test_mock_detection() {
    let mode = detect_boot_mode(true, false).unwrap();
    assert_eq!(mode, BootMode::Uefi);
}

#[test]
fn bootmode_test_real_detection() {
    let mode = detect_boot_mode(false, false).unwrap();
    assert!(mode.is_uefi() || mode.is_bios());
    assert_eq!(mode, BootMode::Bios);
    assert_eq!(detect_boot_mode(false, true).unwrap(), BootMode::Uefi);
}

#[test]
fn test_command_output_creation() {
    let output = CommandOutput::success("test output");
    assert!(output.success);
    assert_eq!(output.stdout, "test output");
    assert_eq!(output.exit_code, 0);

    let output = CommandOutput::failure(1, "error message");
    assert!(!output.success);
    assert_eq!(output.stderr, "error message");
    assert_eq!(output.exit_code, 1);
}

#[test]
fn command_test_mock_executor() {
    let executor = MockExecutor::new();
    let result = executor.execute("lsblk", &["-J"]).unwrap();
    assert!(result.success);
    assert!(result.stdout.contains("blockdevices"));
}

#[test]
fn test_safe_command_builder() {
    let executor = MockExecutor::new();
    let cmd = SafeCommand::new("test", &executor, "Test command").arg("arg1").arg("arg2");

    assert_eq!(cmd.to_string(), "test arg1 arg2");
    assert_eq!(cmd.description(), "Test command");
}

#[test]
fn test_command_exists() {
    let executor = MockExecutor::new();
    assert!(executor.command_exists("lsblk"));
    assert!(!executor.command_exists("nonexistent"));
}

#[test]
fn test_app_initialization() {
    let app = ekaos_install::app::App::new(ekaos_install::app::AppMode::Mock, false);
    assert!(app.is_mock());
    assert!(!app.should_exit);
}

#[test]
fn mod_test_mock_executor() {
    let executor = MockExecutor::new();
    assert!(executor.command_exists("lsblk"));
    let result = executor.execute("lsblk", &["-J"]).unwrap();
    assert!(result.success);
}

#[test]
fn mock_executor_answers_from_its_table() {
    let mut executor = MockExecutor::new();
    assert_eq!(executor.execute("uname", &["-m"]).unwrap().stdout, "x86_64\n");
    assert_eq!(executor.execute("free", &["-h"]).unwrap().stdout.lines().count(), 3);
    assert_eq!(executor.execute("echo", &["hi", "there"]).unwrap().stdout, "[MOCK] Command executed: echo hi there");
    executor.add_response("echo hi there", CommandOutput::failure(4, "nope"));
    let out = executor.execute("echo", &["hi", "there"]).unwrap();
    assert_eq!(out.exit_code, 4);
    assert!(!out.success);
    executor.add_response("echo hi there", CommandOutput::success("second"));
    assert_eq!(executor.execute("echo", &["hi", "there"]).unwrap().stdout, "second");
    assert_eq!(executor.execute("echo", &[]).unwrap().stdout, "[MOCK] Command executed: echo");
}

#[test]
fn command_keys_join_arguments() {
    assert_eq!(MockExecutor::command_key("ls", &[]), "ls");
    assert_eq!(MockExecutor::command_key("ls", &["-l", "/"]), "ls -l /");
}

#[test]
fn safe_commands_take_many_arguments() {
    let executor = MockExecutor::new();
    let cmd = SafeCommand::new("uname", &executor, "Architecture").args(&["-m"]);
    assert_eq!(cmd.to_string(), "uname -m");
    assert_eq!(cmd.execute().unwrap().stdout, "x86_64\n");
    let bare = SafeCommand::new("sync", &executor, "Flush");
    assert_eq!(bare.to_string(), "sync ");
}

#[test]
fn command_outcomes() {
    assert!(command_result("ls", CommandOutput::success("a")).is_ok());
    match command_result("ls", CommandOutput::failure(2, "missing")) {
        Err(InstallerError::Command(CommandError::ExecutionFailed { command, code, stderr })) => {
            assert_eq!(command, "ls");
            assert_eq!(code, 2);
            assert_eq!(stderr, "missing");
        }
        _ => panic!("expected an execution failure"),
    }
    assert!(matches!(launch_error("foo", true, "x"), InstallerError::Command(CommandError::NotFound(c)) if c == "foo"));
    assert!(matches!(
        launch_error("foo", false, "permission denied"),
        InstallerError::Command(CommandError::InvalidArguments(m)) if m == "permission denied"
    ));
}

#[test]
fn test_network_status_display() {
    assert_eq!(NetworkStatus::Connected.as_str(), "Connected");
    assert_eq!(NetworkStatus::Disconnected.as_str(), "Disconnected");
    assert_eq!(NetworkStatus::Timeout.as_str(), "Timeout");
    assert_eq!(NetworkStatus::Unknown.as_str(), "Unknown");
}

#[test]
fn test_network_status_is_connected() {
    assert!(NetworkStatus::Connected.is_connected());
    assert!(!NetworkStatus::Disconnected.is_connected());
    assert!(!NetworkStatus::Timeout.is_connected());
    assert!(!NetworkStatus::Unknown.is_connected());
}

#[test]
fn test_network_status_description() {
    assert!(NetworkStatus::Connected.description().contains("available"));
    assert!(NetworkStatus::Disconnected.description().contains("No network"));
}

#[test]
fn test_mock_network_check() {
    let status = check_network(true, &[]).unwrap();
    assert_eq!(status, NetworkStatus::Connected);
}

#[test]
fn test_real_network_check() {
    let status = check_network(false, &[false, false, true]).unwrap();
    assert!(
        status == NetworkStatus::Connected
            || status == NetworkStatus::Disconnected
            || status == NetworkStatus::Timeout
            || status == NetworkStatus::Unknown
    );
    assert_eq!(status, NetworkStatus::Connected);
    assert_eq!(check_network(false, &[false, false, false]).unwrap(), NetworkStatus::Disconnected);
}

#[test]
fn test_network_with_timeout() {
    let status = check_network_with_timeout(1, true, true, &[]).unwrap();
    assert_eq!(status, NetworkStatus::Connected);
}

#[test]
fn test_is_root_mock() {
    assert!(is_root(true, 1000));
    assert!(is_root(false, 0));
    assert!(!is_root(false, 1000));
}

#[test]
fn test_is_nixos() {
    assert!(is_nixos(true, None, false).unwrap());
    assert!(is_nixos(false, Some("NAME=NixOS\nID=nixos\nVERSION=24.05\n"), false).unwrap());
    assert!(is_nixos(false, Some("ID=debian\nID_LIKE=\"nixos\""), false).unwrap());
    assert!(!is_nixos(false, Some("ID=debian\nNAME=nixos"), false).unwrap());
    assert!(is_nixos(false, None, true).unwrap());
    assert!(!is_nixos(false, None, false).unwrap());
}

#[test]
fn cpu_model_comes_from_the_first_model_name_line() {
    let info = "processor\t: 0\nvendor_id\t: GenuineIntel\nmodel name\t: Intel(R) Core(TM) i7-8550U CPU @ 1.80GHz\nprocessor\t: 1\nmodel name\t: Other\n";
    assert_eq!(cpu_model_from(info), "Intel(R) Core(TM) i7-8550U CPU @ 1.80GHz");
    assert_eq!(cpu_model_from("model name: a: b"), "a");
    assert_eq!(cpu_model_from("vendor_id: x\nmodel name without colon\n"), "Unknown CPU");
    assert_eq!(cpu_model_from(""), "Unknown CPU");
}

#[test]
fn cpu_cores_count_processor_lines_with_at_least_one() {
    assert_eq!(cpu_cores_from("processor: 0\nmodel name: x\nprocessor: 1\nprocessor: 2\n"), 3);
    assert_eq!(cpu_cores_from("model name: x\n"), 1);
    assert_eq!(cpu_cores_from(""), 1);
}

#[test]
fn architecture_is_trimmed_or_unknown() {
    assert_eq!(architecture_from(true, "x86_64\n"), "x86_64");
    assert_eq!(architecture_from(false, "x86_64\n"), "unknown");
}

#[test]
fn numbers_parse_as_unsigned_decimals() {
    let chars = |s: &str| s.chars().collect::<Vec<char>>();
    assert_eq!(parse_u64(&chars("16384000")), Some(16384000));
    assert_eq!(parse_u64(&chars("+12")), Some(12));
    assert_eq!(parse_u64(&chars("18446744073709551615")), Some(u64::MAX));
    assert_eq!(parse_u64(&chars("18446744073709551616")), None);
    assert_eq!(parse_u64(&chars("")), None);
    assert_eq!(parse_u64(&chars("+")), None);
    assert_eq!(parse_u64(&chars("-1")), None);
    assert_eq!(parse_u64(&chars("12kB")), None);
}

#[test]
fn memory_size_comes_from_mem_total() {
    let info = "MemTotal:       16384000 kB\nMemFree:         1000 kB\n";
    assert_eq!(ram_kb_from(info), Some(16384000));
    assert_eq!(ram_bytes_from(info), 16384000 * 1024);
    assert_eq!(ram_kb_from("MemFree: 10 kB\n"), None);
    assert_eq!(ram_bytes_from("MemFree: 10 kB\n"), 0);
    assert_eq!(ram_kb_from("MemTotal:\nMemTotal: 7 kB\n"), Some(7));
    assert_eq!(ram_kb_from("MemTotal: lots\n"), None);
}

const SAMPLE_CPUINFO: &str = "processor\t: 0\nvendor_id\t: GenuineIntel\nmodel name\t: Intel(R) Xeon(R) CPU @ 2.20GHz\ncpu cores\t: 2\n\nprocessor\t: 1\nvendor_id\t: GenuineIntel\nmodel name\t: Intel(R) Xeon(R) CPU @ 2.20GHz\ncpu cores\t: 2\n";

const SAMPLE_MEMINFO: &str = "MemTotal:       16384000 kB\nMemFree:         8192000 kB\nMemAvailable:   12000000 kB\n";

#[test]
fn test_cpu_model_parsing() {
    let model = cpu_model_from(SAMPLE_CPUINFO);
    assert!(!model.is_empty());
    assert_eq!(model, "Intel(R) Xeon(R) CPU @ 2.20GHz");
}

#[test]
fn test_cpu_cores_parsing() {
    let cores = cpu_cores_from(SAMPLE_CPUINFO);
    assert!(cores > 0);
    assert!(cores <= 256);
    assert_eq!(cores, 2);
}

#[test]
fn test_ram_detection() {
    let ram = ram_bytes_from(SAMPLE_MEMINFO);
    assert!(ram > 0);
    assert!(ram >= 512 * 1024 * 1024);
    assert_eq!(ram, 16384000 * 1024);
}

#[test]
fn test_architecture_detection() {
    let arch = architecture_from(true, "x86_64\n");
    assert!(!arch.is_empty());
    assert!(
        arch.contains("x86_64")
            || arch.contains("aarch64")
            || arch.contains("armv")
            || arch.contains("i686")
    );
}

#[test]
fn network_check_past_its_time_limit_times_out() {
    assert_eq!(check_network_with_timeout(1, false, false, &[]).unwrap(), NetworkStatus::Timeout);
    assert_eq!(check_network_with_timeout(1, true, false, &[]).unwrap(), NetworkStatus::Connected);
    assert_eq!(check_network_with_timeout(1, false, true, &[false, true]).unwrap(), NetworkStatus::Connected);
    assert_eq!(check_network_with_timeout(1, false, true, &[false, false, false]).unwrap(), NetworkStatus::Disconnected);
}
