use haybox_drivers::registry::get_device_identifiers;
use haybox_drivers::winusb::{
    companion_file, gamecube_driver_config, install_winusb, install_winusb_driver, Config,
    ConfigBuilder, InstallAction, InstallEvent, PipelineAction, PipelineEvent, PrepareAction,
    PrepareDriverError, PrepareEvent, WinUsbAction, WinUsbEvent, COMPANION_COUNT,
};
use haybox_drivers::xinput::{
    reinstall_xinput, reinstall_xinput_driver, uninstall_xinput, uninstall_xinput_driver,
    ReinstallAction, ReinstallEvent, UninstallAction, UninstallEvent, XInputError,
};

/// Runs the uninstall machine against simulated files; returns the outcome
/// and whether a rename was attempted.
fn simulate_uninstall(admin: bool, dll: &mut bool, backup: &mut bool) -> (Result<(), XInputError>, bool) {
    let mut renamed = false;
    let mut event = UninstallEvent::Start;
    loop {
        event = match uninstall_xinput_driver(event) {
            UninstallAction::CheckAdmin => UninstallEvent::AdminChecked(admin),
            UninstallAction::ProbeDll => UninstallEvent::DllProbed(*dll),
            UninstallAction::RenameToBackup => {
                renamed = true;
                *dll = false;
                *backup = true;
                UninstallEvent::Renamed(Ok(()))
            }
            UninstallAction::Finish(r) => return (r, renamed),
        };
    }
}

#[test]
fn uninstall_twice_succeeds_both_times() {
    let (mut dll, mut backup) = (true, false);
    let (first, renamed_first) = simulate_uninstall(true, &mut dll, &mut backup);
    assert!(first.is_ok());
    assert!(renamed_first);
    assert!(!dll && backup);
    let (second, renamed_second) = simulate_uninstall(true, &mut dll, &mut backup);
    assert!(second.is_ok());
    assert!(!renamed_second);
    assert!(!dll && backup);
}

#[test]
fn uninstall_without_admin_is_refused() {
    let (mut dll, mut backup) = (true, false);
    let (r, renamed) = simulate_uninstall(false, &mut dll, &mut backup);
    assert!(matches!(r, Err(XInputError::PermissionDenied)));
    assert!(!renamed);
    assert!(dll);
    let report = uninstall_xinput(&r);
    assert!(!report.success);
    assert_eq!(report.message, "Failed to uninstall XInput driver: Administrator privileges required");
}

#[test]
fn uninstall_rename_failure_is_reported() {
    let action = uninstall_xinput_driver(UninstallEvent::Renamed(Err("access denied".to_string())));
    let r = match action {
        UninstallAction::Finish(r) => r,
        other => panic!("unexpected {:?}", other),
    };
    assert_eq!(r.as_ref().unwrap_err().message(), "Failed to rename xinput1_4.dll: access denied");
    let report = uninstall_xinput(&r);
    assert!(!report.success);
    assert_eq!(
        report.message,
        "Failed to uninstall XInput driver: Failed to rename xinput1_4.dll: access denied"
    );
    let ok = uninstall_xinput(&Ok(()));
    assert!(ok.success);
    assert_eq!(ok.message, "XInput driver successfully uninstalled");
}

#[test]
fn reinstall_steps() {
    assert!(matches!(reinstall_xinput_driver(ReinstallEvent::Start), ReinstallAction::CheckAdmin));
    assert!(matches!(
        reinstall_xinput_driver(ReinstallEvent::AdminChecked(true)),
        ReinstallAction::LocateExecutableDir
    ));
    assert!(matches!(
        reinstall_xinput_driver(ReinstallEvent::AdminChecked(false)),
        ReinstallAction::Finish(Err(XInputError::PermissionDenied))
    ));
    assert!(matches!(
        reinstall_xinput_driver(ReinstallEvent::ExecutableDirFound(Ok(()))),
        ReinstallAction::CopyBundledDll
    ));
    assert!(matches!(
        reinstall_xinput_driver(ReinstallEvent::ExecutableDirFound(Err(None))),
        ReinstallAction::Finish(Err(XInputError::ExecutableParent))
    ));
    assert!(matches!(
        reinstall_xinput_driver(ReinstallEvent::Copied(Ok(()))),
        ReinstallAction::Finish(Ok(()))
    ));
    let r = match reinstall_xinput_driver(ReinstallEvent::Copied(Err("missing".to_string()))) {
        ReinstallAction::Finish(r) => r,
        other => panic!("unexpected {:?}", other),
    };
    let report = reinstall_xinput(&r);
    assert!(!report.success);
    assert_eq!(report.message, "Failed to reinstall XInput driver: Failed to copy xinput1_4.dll: missing");
    let ok = reinstall_xinput(&Ok(()));
    assert!(ok.success);
    assert_eq!(ok.message, "XInput driver successfully reinstalled");
}

#[test]
fn xinput_error_texts() {
    assert_eq!(XInputError::PermissionDenied.message(), "Administrator privileges required");
    assert_eq!(XInputError::ExecutablePath("gone".to_string()).message(), "Could not find executable path: gone");
    assert_eq!(XInputError::ExecutableParent.message(), "Could not find executable parent directory");
}

#[test]
fn builder_sets_each_field() {
    let c = ConfigBuilder::new()
        .vendor_id(0x1234)
        .product_id(0xABCD)
        .description("Pad")
        .manufacturer("Acme")
        .build();
    assert_eq!((c.vendor_id, c.product_id), (0x1234, 0xABCD));
    assert_eq!(c.description, "Pad");
    assert_eq!(c.manufacturer, "Acme");
    let empty = ConfigBuilder::new().build();
    assert_eq!((empty.vendor_id, empty.product_id), (0, 0));
    assert_eq!(empty.description, "");
    assert_eq!(empty.manufacturer, "");
}

fn gamecube_config() -> Config {
    gamecube_driver_config(&get_device_identifiers())
}

#[test]
fn gamecube_config_uses_the_registry_entry() {
    let c = gamecube_config();
    assert_eq!((c.vendor_id, c.product_id), (0x057E, 0x0337));
    assert_eq!(c.description, "GameCube Adapter");
    assert_eq!(c.manufacturer, "Nintendo");
}

#[test]
fn inf_rendering_fills_the_four_placeholders() {
    let c = gamecube_config();
    let template = "[Strings]\nVID={{VID}} PID={{PID}}\nDesc=\"{{DESCRIPTION}}\" Mfg=\"{{MANUFACTURER}}\"\nHW=USB\\VID_{{VID}}&PID_{{PID}}\n";
    assert_eq!(
        c.render_inf(template),
        "[Strings]\nVID=057E PID=0337\nDesc=\"GameCube Adapter\" Mfg=\"Nintendo\"\nHW=USB\\VID_057E&PID_0337\n"
    );
    assert_eq!(c.render_inf("no placeholders"), "no placeholders");
}

#[test]
fn hardware_id_text() {
    assert_eq!(gamecube_config().hardware_id(), "USB\\VID_057E&PID_0337");
}

#[test]
fn companion_files_are_named() {
    assert_eq!(COMPANION_COUNT, 2);
    assert_eq!(companion_file(0), "WinUSBCoInstaller2.dll");
    assert_eq!(companion_file(1), "WdfCoInstaller01011.dll");
}

#[test]
fn prepare_runs_to_success() {
    let c = gamecube_config();
    assert!(matches!(c.prepare_driver(PrepareEvent::Start), PrepareAction::CheckAdmin));
    assert!(matches!(c.prepare_driver(PrepareEvent::AdminChecked(true)), PrepareAction::EnsureScratchDir));
    assert!(matches!(c.prepare_driver(PrepareEvent::ScratchDirReady(Ok(()))), PrepareAction::LocateExecutableDir));
    assert!(matches!(c.prepare_driver(PrepareEvent::ExecutableDirFound(Ok(()))), PrepareAction::CheckResources));
    assert!(matches!(c.prepare_driver(PrepareEvent::ResourcesFound(true)), PrepareAction::CheckTemplate));
    assert!(matches!(c.prepare_driver(PrepareEvent::TemplateFound(true)), PrepareAction::ReadTemplate));
    match c.prepare_driver(PrepareEvent::TemplateRead(Ok("id={{VID}}:{{PID}}".to_string()))) {
        PrepareAction::WriteInf(text) => assert_eq!(text, "id=057E:0337"),
        other => panic!("unexpected {:?}", other),
    }
    assert!(matches!(c.prepare_driver(PrepareEvent::InfWritten(Ok(()))), PrepareAction::CheckCompanion(0)));
    assert!(matches!(c.prepare_driver(PrepareEvent::CompanionFound(0, true)), PrepareAction::CopyCompanion(0)));
    assert!(matches!(c.prepare_driver(PrepareEvent::CompanionCopied(0, Ok(()))), PrepareAction::CheckCompanion(1)));
    assert!(matches!(c.prepare_driver(PrepareEvent::CompanionFound(1, true)), PrepareAction::CopyCompanion(1)));
    assert!(matches!(c.prepare_driver(PrepareEvent::CompanionCopied(1, Ok(()))), PrepareAction::Finish(Ok(()))));
}

fn prepare_error(c: &Config, e: PrepareEvent) -> PrepareDriverError {
    match c.prepare_driver(e) {
        PrepareAction::Finish(Err(err)) => err,
        other => panic!("unexpected {:?}", other),
    }
}

#[test]
fn prepare_failures() {
    let c = gamecube_config();
    assert!(matches!(prepare_error(&c, PrepareEvent::AdminChecked(false)), PrepareDriverError::PermissionDenied));
    assert!(matches!(prepare_error(&c, PrepareEvent::ResourcesFound(false)), PrepareDriverError::DriverNotFound));
    assert!(matches!(prepare_error(&c, PrepareEvent::TemplateFound(false)), PrepareDriverError::DriverNotFound));
    assert!(matches!(prepare_error(&c, PrepareEvent::CompanionFound(1, false)), PrepareDriverError::DriverNotFound));
    assert_eq!(
        prepare_error(&c, PrepareEvent::CompanionCopied(1, Err("disk full".to_string()))).message(),
        "Unknown error: Failed to copy WdfCoInstaller01011.dll: disk full"
    );
    assert_eq!(
        prepare_error(&c, PrepareEvent::ScratchDirReady(Err("denied".to_string()))).message(),
        "Unknown error: Failed to create temp directory: denied"
    );
    assert_eq!(
        prepare_error(&c, PrepareEvent::TemplateRead(Err("bad utf-8".to_string()))).message(),
        "Unknown error: Failed to read INF template: bad utf-8"
    );
    assert_eq!(
        prepare_error(&c, PrepareEvent::InfWritten(Err("locked".to_string()))).message(),
        "Unknown error: Failed to write INF file: locked"
    );
    assert_eq!(
        prepare_error(&c, PrepareEvent::ExecutableDirFound(Err(None))).message(),
        "Unknown error: Could not find executable parent directory"
    );
    assert_eq!(PrepareDriverError::DriverNotFound.message(), "Driver files not found");
    assert_eq!(PrepareDriverError::PermissionDenied.message(), "Permission denied");
}

fn install_error(c: &Config, e: InstallEvent) -> String {
    match c.install_driver(e) {
        InstallAction::Finish(Err(t)) => t,
        other => panic!("unexpected {:?}", other),
    }
}

#[test]
fn install_steps_and_failures() {
    let c = gamecube_config();
    assert!(matches!(c.install_driver(InstallEvent::Start), InstallAction::CheckAdmin));
    assert!(matches!(c.install_driver(InstallEvent::AdminChecked(true)), InstallAction::CheckInf));
    assert!(matches!(c.install_driver(InstallEvent::InfFound(true)), InstallAction::RunDriverStore));
    assert!(matches!(
        c.install_driver(InstallEvent::DriverStoreRan(Ok((true, String::new())))),
        InstallAction::LocateExecutableDir
    ));
    assert!(matches!(c.install_driver(InstallEvent::ExecutableDirFound(Ok(()))), InstallAction::CheckRebindTool));
    match c.install_driver(InstallEvent::RebindToolFound(true)) {
        InstallAction::RunRebindTool(id) => assert_eq!(id, "USB\\VID_057E&PID_0337"),
        other => panic!("unexpected {:?}", other),
    }
    assert!(matches!(c.install_driver(InstallEvent::RebindToolFound(false)), InstallAction::Finish(Ok(()))));
    assert!(matches!(
        c.install_driver(InstallEvent::RebindRan(Err("crashed".to_string()))),
        InstallAction::Finish(Ok(()))
    ));
    assert_eq!(install_error(&c, InstallEvent::AdminChecked(false)), "Administrator privileges required");
    assert_eq!(
        install_error(&c, InstallEvent::InfFound(false)),
        "Driver INF file not found. Did you call prepare_driver first?"
    );
    assert_eq!(
        install_error(&c, InstallEvent::DriverStoreRan(Ok((false, "bad inf".to_string())))),
        "pnputil failed: bad inf"
    );
    assert_eq!(
        install_error(&c, InstallEvent::DriverStoreRan(Err("not found".to_string()))),
        "Failed to execute pnputil: not found"
    );
}

#[test]
fn pipeline_maps_stage_failures() {
    assert!(matches!(install_winusb_driver(PipelineEvent::Start), PipelineAction::Prepare));
    assert!(matches!(install_winusb_driver(PipelineEvent::Prepared(Ok(()))), PipelineAction::Install));
    assert!(matches!(install_winusb_driver(PipelineEvent::Installed(Ok(()))), PipelineAction::Finish(Ok(()))));
    let text = |a: PipelineAction| match a {
        PipelineAction::Finish(Err(t)) => t,
        other => panic!("unexpected {:?}", other),
    };
    assert_eq!(
        text(install_winusb_driver(PipelineEvent::Prepared(Err(PrepareDriverError::DriverNotFound)))),
        "WinUSB driver files not found"
    );
    assert_eq!(
        text(install_winusb_driver(PipelineEvent::Prepared(Err(PrepareDriverError::PermissionDenied)))),
        "Failed to prepare driver: Permission denied"
    );
    assert_eq!(
        text(install_winusb_driver(PipelineEvent::Installed(Err("pnputil failed: x".to_string())))),
        "Failed to install driver: pnputil failed: x"
    );
}

fn finished(a: WinUsbAction) -> (bool, String) {
    match a {
        WinUsbAction::Finish(r) => (r.success, r.message),
        other => panic!("unexpected {:?}", other),
    }
}

#[test]
fn winusb_install_refuses_when_adapter_absent() {
    let reg = get_device_identifiers();
    let scan = Some(vec![Some((0x0738, 0x4726)), Some((0x057E, 0x0338))]);
    let (success, message) = finished(install_winusb(&reg, WinUsbEvent::BusScanned(scan)));
    assert!(!success);
    assert_eq!(
        message,
        "GameCube adapter not found. Please make sure it is connected and in the correct mode."
    );
    let (success, _) = finished(install_winusb(&reg, WinUsbEvent::BusScanned(None)));
    assert!(!success);
}

#[test]
fn winusb_install_command_steps() {
    let reg = get_device_identifiers();
    assert!(matches!(install_winusb(&reg, WinUsbEvent::Start), WinUsbAction::CheckAdmin));
    assert!(matches!(install_winusb(&reg, WinUsbEvent::AdminChecked(true)), WinUsbAction::ScanBus));
    assert_eq!(
        finished(install_winusb(&reg, WinUsbEvent::AdminChecked(false))),
        (false, "Administrator privileges required".to_string())
    );
    match install_winusb(&reg, WinUsbEvent::BusScanned(Some(vec![None, Some((0x057E, 0x0337))]))) {
        WinUsbAction::InstallDriver(c) => {
            assert_eq!((c.vendor_id, c.product_id), (0x057E, 0x0337));
            assert_eq!(c.manufacturer, "Nintendo");
        }
        other => panic!("unexpected {:?}", other),
    }
    assert_eq!(
        finished(install_winusb(&reg, WinUsbEvent::DriverInstalled(Ok(())))),
        (true, "WinUSB driver successfully installed for GameCube adapter".to_string())
    );
    assert_eq!(
        finished(install_winusb(&reg, WinUsbEvent::DriverInstalled(Err("WinUSB driver files not found".to_string())))),
        (false, "Failed to install WinUSB driver: WinUSB driver files not found".to_string())
    );
}
