use ekaos_install::error::{CommandError, ConfigError, InstallerError};
use ekaos_install::nixos::install::{
    hardware_config_result, install_result, join_path, verification_result, InstallAction, InstallEvent,
    InstallExecutor, InstallMessage, InstallPhase, InstallProgress, InstallRun, InstallStage, MockInstallExecutor,
};
use ekaos_install::system::CommandOutput;

#[test]
fn test_mock_executor_success() {
    let executor = MockInstallExecutor::new();
    let root = "/mnt";

    assert!(executor.generate_hardware_config(root).is_ok());
    assert!(executor.execute_install(root).is_ok());
    assert!(executor.verify_installation(root).is_ok());
}

#[test]
fn test_mock_executor_failure() {
    let executor = MockInstallExecutor::new().with_failure(true);
    let root = "/mnt";

    assert!(executor.generate_hardware_config(root).is_err());
    assert!(executor.execute_install(root).is_err());
    assert!(executor.verify_installation(root).is_err());
}

#[test]
fn test_install_stages() {
    assert_eq!(InstallStage::GeneratingConfig, InstallStage::GeneratingConfig);
    assert_ne!(InstallStage::Installing, InstallStage::Complete);
}

#[test]
fn test_install_message() {
    let progress = InstallProgress {
        stage: InstallStage::Installing,
        percent: 50,
        operation: "Test".to_string(),
        log_line: None,
    };

    let msg = InstallMessage::Progress(progress.clone());
    if let InstallMessage::Progress(p) = msg {
        assert_eq!(p.percent, 50);
        assert_eq!(p.stage, InstallStage::Installing);
    } else {
        panic!("Expected Progress message");
    }
}

/// Drives a run to its end with the given executor; writing the
/// configuration succeeds when `write_ok`.
fn drive(executor: &dyn InstallExecutor, write_ok: bool) -> Vec<InstallMessage> {
    let mut run = InstallRun::new("/mnt", true);
    let (mut messages, mut action) = run.step(InstallEvent::Begin);
    loop {
        let event = match action {
            InstallAction::WriteConfiguration => InstallEvent::StepDone(if write_ok {
                Ok(())
            } else {
                Err(InstallerError::Io("read-only file system".to_string()))
            }),
            InstallAction::GenerateHardwareConfig => InstallEvent::StepDone(executor.generate_hardware_config("/mnt")),
            InstallAction::Wait(_) => InstallEvent::Waited,
            InstallAction::RunInstall => InstallEvent::StepDone(executor.execute_install("/mnt")),
            InstallAction::Verify => InstallEvent::StepDone(executor.verify_installation("/mnt")),
            InstallAction::Done => break,
        };
        let (more, next) = run.step(event);
        messages.extend(more);
        action = next;
    }
    assert_eq!(run.phase(), InstallPhase::Finished);
    messages
}

#[test]
fn test_async_installation() {
    let messages = drive(&MockInstallExecutor::new(), true);
    assert!(!messages.is_empty());
    match messages.last() {
        Some(InstallMessage::Success) => {}
        Some(InstallMessage::Error(_)) => {}
        _ => {
            let has_progress = messages.iter().any(|m| matches!(m, InstallMessage::Progress(_)));
            assert!(has_progress, "Expected at least one progress message");
        }
    }
}

#[test]
fn successful_run_reports_every_percentage_in_order() {
    let messages = drive(&MockInstallExecutor::new(), true);
    let percents: Vec<u8> = messages
        .iter()
        .filter_map(|m| match m {
            InstallMessage::Progress(p) => Some(p.percent),
            _ => None,
        })
        .collect();
    assert_eq!(percents, vec![5, 20, 30, 30, 40, 50, 60, 70, 80, 90, 100]);
    assert!(matches!(messages.last(), Some(InstallMessage::Success)));
    let logs: Vec<String> = messages
        .iter()
        .filter_map(|m| match m {
            InstallMessage::Log(l) => Some(l.clone()),
            _ => None,
        })
        .collect();
    assert_eq!(
        logs,
        vec![
            "Configuration written to /mnt/etc/nixos/configuration.nix".to_string(),
            "Hardware configuration generated successfully".to_string(),
            "NixOS installation completed successfully".to_string(),
            "Installation verified successfully".to_string(),
        ]
    );
    match &messages[5] {
        InstallMessage::Progress(p) => {
            assert_eq!(p.operation, "Installing NixOS... 30%");
            assert_eq!(p.log_line.as_deref(), Some("Installing system packages (step 1)"));
        }
        _ => panic!("expected progress"),
    }
}

#[test]
fn failed_step_ends_the_run_with_its_error() {
    let messages = drive(&MockInstallExecutor::new().with_failure(true), true);
    match messages.last() {
        Some(InstallMessage::Error(e)) => assert_eq!(
            e,
            "Failed to generate hardware configuration: Configuration error: Configuration generation failed: Mock failure"
        ),
        _ => panic!("expected an error"),
    }
    assert!(!messages.iter().any(|m| matches!(m, InstallMessage::Success)));

    let messages = drive(&MockInstallExecutor::new(), false);
    assert_eq!(messages.len(), 2);
    match messages.last() {
        Some(InstallMessage::Error(e)) => assert_eq!(e, "Failed to write configuration: IO error: read-only file system"),
        _ => panic!("expected an error"),
    }
}

#[test]
fn finished_run_ignores_further_events() {
    let mut run = InstallRun::new("/", false);
    assert_eq!(run.config_path(), "/etc/nixos/configuration.nix");
    assert_eq!(run.pending(), InstallAction::Done);
    let (m, a) = run.step(InstallEvent::Waited);
    assert!(m.is_empty());
    assert_eq!(a, InstallAction::Done);
    let (_, a) = run.step(InstallEvent::Begin);
    assert_eq!(a, InstallAction::WriteConfiguration);
    let (_, a) = run.step(InstallEvent::StepDone(Err(InstallerError::other("no"))));
    assert_eq!(a, InstallAction::Done);
    let (m, a) = run.step(InstallEvent::StepDone(Ok(())));
    assert!(m.is_empty());
    assert_eq!(a, InstallAction::Done);
}

#[test]
fn real_pauses_are_long() {
    let mut run = InstallRun::new("/mnt", false);
    run.step(InstallEvent::Begin);
    run.step(InstallEvent::StepDone(Ok(())));
    let (_, a) = run.step(InstallEvent::StepDone(Ok(())));
    assert_eq!(a, InstallAction::Wait(5000));
}

#[test]
fn paths_join_like_directories() {
    assert_eq!(join_path("/mnt", "etc/nixos/configuration.nix"), "/mnt/etc/nixos/configuration.nix");
    assert_eq!(join_path("/mnt/", "boot"), "/mnt/boot");
    assert_eq!(join_path("", "boot"), "boot");
}

#[test]
fn executor_outcomes_become_install_errors() {
    assert!(hardware_config_result(Ok(CommandOutput::success(""))).is_ok());
    match hardware_config_result(Ok(CommandOutput::failure(2, "no root"))) {
        Err(InstallerError::Config(ConfigError::GenerationFailed(m))) => assert_eq!(m, "no root"),
        _ => panic!("expected a generation failure"),
    }
    match hardware_config_result(Err(InstallerError::Command(CommandError::NotFound("nixos-generate-config".to_string())))) {
        Err(InstallerError::Config(ConfigError::GenerationFailed(m))) => {
            assert_eq!(m, "Command 'nixos-generate-config' not found")
        }
        _ => panic!("expected a generation failure"),
    }
    match install_result(Ok(CommandOutput::failure(3, "disk full"))) {
        Err(InstallerError::Command(CommandError::ExecutionFailed { command, code, stderr })) => {
            assert_eq!(command, "nixos-install");
            assert_eq!(code, 3);
            assert_eq!(stderr, "disk full");
        }
        _ => panic!("expected an execution failure"),
    }
    match install_result(Err(InstallerError::other("spawn failed"))) {
        Err(InstallerError::Command(CommandError::ExecutionFailed { code, stderr, .. })) => {
            assert_eq!(code, -1);
            assert_eq!(stderr, "spawn failed");
        }
        _ => panic!("expected an execution failure"),
    }
    assert!(install_result(Ok(CommandOutput::success("done"))).is_ok());
}

#[test]
fn verification_checks_parts_in_order() {
    match verification_result("/mnt", false, false, false) {
        Err(InstallerError::Config(ConfigError::ReadFailed { path, reason })) => {
            assert_eq!(path, "/mnt/etc/nixos/configuration.nix");
            assert_eq!(reason, "Configuration file not found");
        }
        _ => panic!("expected a read failure"),
    }
    match verification_result("/mnt", true, false, true) {
        Err(InstallerError::Config(ConfigError::ReadFailed { path, .. })) => {
            assert_eq!(path, "/mnt/etc/nixos/hardware-configuration.nix")
        }
        _ => panic!("expected a read failure"),
    }
    match verification_result("/mnt", true, true, false) {
        Err(InstallerError::Other(m)) => assert_eq!(m, "Boot directory not found after installation"),
        _ => panic!("expected a missing boot directory"),
    }
    assert!(verification_result("/mnt", true, true, true).is_ok());
}
