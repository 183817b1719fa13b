//! The WinUSB driver installer: the install configuration and its builder,
//! INF rendering, and the machines that drive prepare, install, and the
//! whole command.
//!
//! Each machine returns the next action; the caller performs it (files,
//! subprocesses) and hands back what happened as the next event.

use vstd::prelude::*;
use crate::operation::{operation_result, DriverOperationResult};
use crate::registry::{is_standard_registry, DeviceIdentifiers};
use crate::text::{format_hex4, hex4, replace_seq, replace_text};
use crate::usb::{is_device_connected, scan_sees, scan_view};

verus! {

broadcast use vstd::string::group_string_axioms;

/// What a WinUSB driver is installed for.
#[derive(Debug, Clone)]
pub struct Config {
    pub vendor_id: u16,
    pub product_id: u16,
    pub description: String,
    pub manufacturer: String,
}

/// Builds a [`Config`] one field at a time.
pub struct ConfigBuilder {
    vendor_id: u16,
    product_id: u16,
    description: String,
    manufacturer: String,
}

impl View for ConfigBuilder {
    type V = (u16, u16, Seq<char>, Seq<char>);

    /// Vendor id, product id, description, manufacturer.
    closed spec fn view(&self) -> (u16, u16, Seq<char>, Seq<char>) {
        (self.vendor_id, self.product_id, self.description@, self.manufacturer@)
    }
}

impl ConfigBuilder {
    /// A builder with zero ids and empty texts.
    pub fn new() -> (r: Self)
        ensures
            r@ == (0u16, 0u16, Seq::<char>::empty(), Seq::<char>::empty()),
    {
        let r = ConfigBuilder {
            vendor_id: 0,
            product_id: 0,
            description: String::new(),
            manufacturer: String::new(),
        };
        assert(r@ =~= (0u16, 0u16, Seq::<char>::empty(), Seq::<char>::empty()));
        r
    }

    /// Sets the vendor id.
    pub fn vendor_id(self, vendor_id: u16) -> (r: Self)
        ensures
            r@ == (vendor_id, self@.1, self@.2, self@.3),
    {
        ConfigBuilder { vendor_id, ..self }
    }

    /// Sets the product id.
    pub fn product_id(self, product_id: u16) -> (r: Self)
        ensures
            r@ == (self@.0, product_id, self@.2, self@.3),
    {
        ConfigBuilder { product_id, ..self }
    }

    /// Sets the description.
    pub fn description(self, description: &str) -> (r: Self)
        ensures
            r@ == (self@.0, self@.1, description@, self@.3),
    {
        ConfigBuilder { description: description.to_string(), ..self }
    }

    /// Sets the manufacturer.
    pub fn manufacturer(self, manufacturer: &str) -> (r: Self)
        ensures
            r@ == (self@.0, self@.1, self@.2, manufacturer@),
    {
        ConfigBuilder { manufacturer: manufacturer.to_string(), ..self }
    }

    /// The configuration holding the fields set so far.
    pub fn build(self) -> (r: Config)
        ensures
            r.vendor_id == self@.0,
            r.product_id == self@.1,
            r.description@ == self@.2,
            r.manufacturer@ == self@.3,
    {
        Config {
            vendor_id: self.vendor_id,
            product_id: self.product_id,
            description: self.description,
            manufacturer: self.manufacturer,
        }
    }
}

/// Why preparing the driver files failed.
#[derive(Debug, Clone)]
pub enum PrepareDriverError {
    DriverNotFound,
    PermissionDenied,
    UnknownError(String),
}

/// The text of a prepare failure.
pub open spec fn prepare_error_text(e: PrepareDriverError) -> Seq<char> {
    match e {
        PrepareDriverError::DriverNotFound => "Driver files not found"@,
        PrepareDriverError::PermissionDenied => "Permission denied"@,
        PrepareDriverError::UnknownError(d) => "Unknown error: "@ + d@,
    }
}

impl PrepareDriverError {
    /// The text shown to the caller.
    pub fn message(&self) -> (r: String)
        ensures
            r@ == prepare_error_text(*self),
    {
        match self {
            PrepareDriverError::DriverNotFound => "Driver files not found".to_string(),
            PrepareDriverError::PermissionDenied => "Permission denied".to_string(),
            PrepareDriverError::UnknownError(d) => "Unknown error: ".to_string().concat(d.as_str()),
        }
    }
}

/// The INF rendered from `template`: the four placeholders replaced, in
/// order, by the hexadecimal vendor id, the hexadecimal product id, the
/// description and the manufacturer.
pub open spec fn inf_text(template: Seq<char>, c: Config) -> Seq<char> {
    let a = replace_seq(template, "{{VID}}"@, hex4(c.vendor_id));
    let b = replace_seq(a, "{{PID}}"@, hex4(c.product_id));
    let d = replace_seq(b, "{{DESCRIPTION}}"@, c.description@);
    replace_seq(d, "{{MANUFACTURER}}"@, c.manufacturer@)
}

/// The hardware id of the pair: `USB\VID_xxxx&PID_xxxx`.
pub open spec fn hardware_id_text(vid: u16, pid: u16) -> Seq<char> {
    "USB\\VID_"@ + hex4(vid) + "&PID_"@ + hex4(pid)
}

impl Config {
    /// The INF text for this configuration from the template's text.
    pub fn render_inf(&self, template: &str) -> (r: String)
        ensures
            r@ == inf_text(template@, *self),
    {
        proof {
            reveal_strlit("{{VID}}");
            reveal_strlit("{{PID}}");
            reveal_strlit("{{DESCRIPTION}}");
            reveal_strlit("{{MANUFACTURER}}");
        }
        let vid = format_hex4(self.vendor_id);
        let pid = format_hex4(self.product_id);
        let a = replace_text(template, "{{VID}}", vid.as_str());
        let b = replace_text(a.as_str(), "{{PID}}", pid.as_str());
        let d = replace_text(b.as_str(), "{{DESCRIPTION}}", self.description.as_str());
        replace_text(d.as_str(), "{{MANUFACTURER}}", self.manufacturer.as_str())
    }

    /// The hardware id that the rebind tool is pointed at.
    pub fn hardware_id(&self) -> (r: String)
        ensures
            r@ == hardware_id_text(self.vendor_id, self.product_id),
    {
        let vid = format_hex4(self.vendor_id);
        let pid = format_hex4(self.product_id);
        "USB\\VID_".to_string().concat(vid.as_str()).concat("&PID_").concat(pid.as_str())
    }
}

/// How many companion installer files go with the INF.
pub const COMPANION_COUNT: usize = 2;

/// The companion installer files, by position.
pub open spec fn companion_name(i: int) -> Seq<char> {
    if i == 0 {
        "WinUSBCoInstaller2.dll"@
    } else {
        "WdfCoInstaller01011.dll"@
    }
}

/// The name of the `i`-th companion installer file.
pub fn companion_file(i: usize) -> (r: &'static str)
    requires
        i < COMPANION_COUNT,
    ensures
        r@ == companion_name(i as int),
{
    if i == 0 {
        "WinUSBCoInstaller2.dll"
    } else {
        "WdfCoInstaller01011.dll"
    }
}

/// What the prepare machine is told.
#[derive(Debug)]
pub enum PrepareEvent {
    Start,
    AdminChecked(bool),
    /// The scratch directory exists now, or creating it failed.
    ScratchDirReady(Result<(), String>),
    /// `Err(Some(d))`: the executable's path was not found; `Err(None)`: it
    /// has no parent directory.
    ExecutableDirFound(Result<(), Option<String>>),
    ResourcesFound(bool),
    TemplateFound(bool),
    TemplateRead(Result<String, String>),
    InfWritten(Result<(), String>),
    CompanionFound(usize, bool),
    CompanionCopied(usize, Result<(), String>),
}

/// What the prepare machine asks for next.
#[derive(Debug)]
pub enum PrepareAction {
    CheckAdmin,
    EnsureScratchDir,
    LocateExecutableDir,
    CheckResources,
    CheckTemplate,
    ReadTemplate,
    /// Write this text as the INF in the scratch directory.
    WriteInf(String),
    /// Check that the `i`-th companion file is among the resources.
    CheckCompanion(usize),
    /// Copy the `i`-th companion file into the scratch directory.
    CopyCompanion(usize),
    Finish(Result<(), PrepareDriverError>),
}

/// Companion indices in an event are ones the machine handed out.
pub open spec fn prepare_event_valid(e: PrepareEvent) -> bool {
    match e {
        PrepareEvent::CompanionFound(i, _) => i < COMPANION_COUNT,
        PrepareEvent::CompanionCopied(i, _) => i < COMPANION_COUNT,
        _ => true,
    }
}

/// `a` finishes with an unknown error of this text.
pub open spec fn prepare_fails_with(a: PrepareAction, text: Seq<char>) -> bool {
    match a {
        PrepareAction::Finish(Err(PrepareDriverError::UnknownError(t))) => t@ == text,
        _ => false,
    }
}

/// The prepare rule. Admin first; then the scratch directory and the
/// executable's directory; a missing resource directory, template or
/// companion file is `DriverNotFound`; the template is rendered and written,
/// then each companion file is copied; any file-system failure stops it.
pub open spec fn prepare_responds(c: Config, e: PrepareEvent, a: PrepareAction) -> bool {
    match e {
        PrepareEvent::Start => a == PrepareAction::CheckAdmin,
        PrepareEvent::AdminChecked(admin) => if admin {
            a == PrepareAction::EnsureScratchDir
        } else {
            a == PrepareAction::Finish(Err(PrepareDriverError::PermissionDenied))
        },
        PrepareEvent::ScratchDirReady(Ok(())) => a == PrepareAction::LocateExecutableDir,
        PrepareEvent::ScratchDirReady(Err(d)) => prepare_fails_with(
            a,
            "Failed to create temp directory: "@ + d@,
        ),
        PrepareEvent::ExecutableDirFound(Ok(())) => a == PrepareAction::CheckResources,
        PrepareEvent::ExecutableDirFound(Err(Some(d))) => prepare_fails_with(
            a,
            "Could not find executable path: "@ + d@,
        ),
        PrepareEvent::ExecutableDirFound(Err(None)) => prepare_fails_with(
            a,
            "Could not find executable parent directory"@,
        ),
        PrepareEvent::ResourcesFound(found) => if found {
            a == PrepareAction::CheckTemplate
        } else {
            a == PrepareAction::Finish(Err(PrepareDriverError::DriverNotFound))
        },
        PrepareEvent::TemplateFound(found) => if found {
            a == PrepareAction::ReadTemplate
        } else {
            a == PrepareAction::Finish(Err(PrepareDriverError::DriverNotFound))
        },
        PrepareEvent::TemplateRead(Ok(t)) => match a {
            PrepareAction::WriteInf(inf) => inf@ == inf_text(t@, c),
            _ => false,
        },
        PrepareEvent::TemplateRead(Err(d)) => prepare_fails_with(
            a,
            "Failed to read INF template: "@ + d@,
        ),
        PrepareEvent::InfWritten(Ok(())) => a == PrepareAction::CheckCompanion(0),
        PrepareEvent::InfWritten(Err(d)) => prepare_fails_with(a, "Failed to write INF file: "@ + d@),
        PrepareEvent::CompanionFound(i, found) => if found {
            a == PrepareAction::CopyCompanion(i)
        } else {
            a == PrepareAction::Finish(Err(PrepareDriverError::DriverNotFound))
        },
        PrepareEvent::CompanionCopied(i, Ok(())) => if i + 1 < COMPANION_COUNT {
            a == PrepareAction::CheckCompanion((i + 1) as usize)
        } else {
            a == PrepareAction::Finish(Ok(()))
        },
        PrepareEvent::CompanionCopied(i, Err(d)) => prepare_fails_with(
            a,
            "Failed to copy "@ + companion_name(i as int) + ": "@ + d@,
        ),
    }
}

/// What the install machine is told.
#[derive(Debug)]
pub enum InstallEvent {
    Start,
    AdminChecked(bool),
    InfFound(bool),
    /// The driver-store tool ran, with its success and its error output, or
    /// could not be launched.
    DriverStoreRan(Result<(bool, String), String>),
    /// `Err(Some(d))`: the executable's path was not found; `Err(None)`: it
    /// has no parent directory.
    ExecutableDirFound(Result<(), Option<String>>),
    RebindToolFound(bool),
    /// The rebind tool ran or could not be launched; either way the driver
    /// is installed.
    RebindRan(Result<(), String>),
}

/// What the install machine asks for next.
#[derive(Debug)]
pub enum InstallAction {
    CheckAdmin,
    CheckInf,
    /// Add and install the prepared INF with the driver-store tool.
    RunDriverStore,
    LocateExecutableDir,
    CheckRebindTool,
    /// Rebind the device with this hardware id to the new driver.
    RunRebindTool(String),
    Finish(Result<(), String>),
}

/// `a` finishes with a failure of this text.
pub open spec fn install_fails_with(a: InstallAction, text: Seq<char>) -> bool {
    match a {
        InstallAction::Finish(Err(t)) => t@ == text,
        _ => false,
    }
}

/// The install rule. Admin first; the prepared INF must exist; the
/// driver-store tool must launch and succeed; then the rebind tool runs if
/// it is there, and its failure does not fail the install.
pub open spec fn install_responds(c: Config, e: InstallEvent, a: InstallAction) -> bool {
    match e {
        InstallEvent::Start => a == InstallAction::CheckAdmin,
        InstallEvent::AdminChecked(admin) => if admin {
            a == InstallAction::CheckInf
        } else {
            install_fails_with(a, "Administrator privileges required"@)
        },
        InstallEvent::InfFound(found) => if found {
            a == InstallAction::RunDriverStore
        } else {
            install_fails_with(a, "Driver INF file not found. Did you call prepare_driver first?"@)
        },
        InstallEvent::DriverStoreRan(Err(d)) => install_fails_with(
            a,
            "Failed to execute pnputil: "@ + d@,
        ),
        InstallEvent::DriverStoreRan(Ok((ok, stderr))) => if ok {
            a == InstallAction::LocateExecutableDir
        } else {
            install_fails_with(a, "pnputil failed: "@ + stderr@)
        },
        InstallEvent::ExecutableDirFound(Ok(())) => a == InstallAction::CheckRebindTool,
        InstallEvent::ExecutableDirFound(Err(Some(d))) => install_fails_with(
            a,
            "Could not find executable path: "@ + d@,
        ),
        InstallEvent::ExecutableDirFound(Err(None)) => install_fails_with(
            a,
            "Could not find executable parent directory"@,
        ),
        InstallEvent::RebindToolFound(found) => if found {
            match a {
                InstallAction::RunRebindTool(id) => id@ == hardware_id_text(c.vendor_id, c.product_id),
                _ => false,
            }
        } else {
            a == InstallAction::Finish(Ok(()))
        },
        InstallEvent::RebindRan(_) => a == InstallAction::Finish(Ok(())),
    }
}

fn prepare_failure(head: &str, detail: &str) -> (r: PrepareAction)
    ensures
        prepare_fails_with(r, head@ + detail@),
{
    PrepareAction::Finish(Err(PrepareDriverError::UnknownError(head.to_string().concat(detail))))
}

fn install_failure(head: &str, detail: &str) -> (r: InstallAction)
    ensures
        install_fails_with(r, head@ + detail@),
{
    InstallAction::Finish(Err(head.to_string().concat(detail)))
}

impl Config {
    /// One step of the prepare machine.
    pub fn prepare_driver(&self, event: PrepareEvent) -> (r: PrepareAction)
        requires
            prepare_event_valid(event),
        ensures
            prepare_responds(*self, event, r),
    {
        proof {
            reveal_strlit("");
        }
        match event {
            PrepareEvent::Start => PrepareAction::CheckAdmin,
            PrepareEvent::AdminChecked(admin) => if admin {
                PrepareAction::EnsureScratchDir
            } else {
                PrepareAction::Finish(Err(PrepareDriverError::PermissionDenied))
            },
            PrepareEvent::ScratchDirReady(Ok(())) => PrepareAction::LocateExecutableDir,
            PrepareEvent::ScratchDirReady(Err(d)) => prepare_failure(
                "Failed to create temp directory: ",
                d.as_str(),
            ),
            PrepareEvent::ExecutableDirFound(Ok(())) => PrepareAction::CheckResources,
            PrepareEvent::ExecutableDirFound(Err(Some(d))) => prepare_failure(
                "Could not find executable path: ",
                d.as_str(),
            ),
            PrepareEvent::ExecutableDirFound(Err(None)) => prepare_failure(
                "Could not find executable parent directory",
                "",
            ),
            PrepareEvent::ResourcesFound(found) => if found {
                PrepareAction::CheckTemplate
            } else {
                PrepareAction::Finish(Err(PrepareDriverError::DriverNotFound))
            },
            PrepareEvent::TemplateFound(found) => if found {
                PrepareAction::ReadTemplate
            } else {
                PrepareAction::Finish(Err(PrepareDriverError::DriverNotFound))
            },
            PrepareEvent::TemplateRead(Ok(t)) => PrepareAction::WriteInf(self.render_inf(t.as_str())),
            PrepareEvent::TemplateRead(Err(d)) => prepare_failure(
                "Failed to read INF template: ",
                d.as_str(),
            ),
            PrepareEvent::InfWritten(Ok(())) => PrepareAction::CheckCompanion(0),
            PrepareEvent::InfWritten(Err(d)) => prepare_failure(
                "Failed to write INF file: ",
                d.as_str(),
            ),
            PrepareEvent::CompanionFound(i, found) => if found {
                PrepareAction::CopyCompanion(i)
            } else {
                PrepareAction::Finish(Err(PrepareDriverError::DriverNotFound))
            },
            PrepareEvent::CompanionCopied(i, Ok(())) => if i + 1 < COMPANION_COUNT {
                PrepareAction::CheckCompanion(i + 1)
            } else {
                PrepareAction::Finish(Ok(()))
            },
            PrepareEvent::CompanionCopied(i, Err(d)) => {
                let head = "Failed to copy ".to_string().concat(companion_file(i)).concat(": ");
                prepare_failure(head.as_str(), d.as_str())
            },
        }
    }

    /// One step of the install machine.
    pub fn install_driver(&self, event: InstallEvent) -> (r: InstallAction)
        ensures
            install_responds(*self, event, r),
    {
        proof {
            reveal_strlit("");
        }
        match event {
            InstallEvent::Start => InstallAction::CheckAdmin,
            InstallEvent::AdminChecked(admin) => if admin {
                InstallAction::CheckInf
            } else {
                install_failure("Administrator privileges required", "")
            },
            InstallEvent::InfFound(found) => if found {
                InstallAction::RunDriverStore
            } else {
                install_failure("Driver INF file not found. Did you call prepare_driver first?", "")
            },
            InstallEvent::DriverStoreRan(Err(d)) => install_failure(
                "Failed to execute pnputil: ",
                d.as_str(),
            ),
            InstallEvent::DriverStoreRan(Ok((ok, stderr))) => if ok {
                InstallAction::LocateExecutableDir
            } else {
                install_failure("pnputil failed: ", stderr.as_str())
            },
            InstallEvent::ExecutableDirFound(Ok(())) => InstallAction::CheckRebindTool,
            InstallEvent::ExecutableDirFound(Err(Some(d))) => install_failure(
                "Could not find executable path: ",
                d.as_str(),
            ),
            InstallEvent::ExecutableDirFound(Err(None)) => install_failure(
                "Could not find executable parent directory",
                "",
            ),
            InstallEvent::RebindToolFound(found) => if found {
                InstallAction::RunRebindTool(self.hardware_id())
            } else {
                InstallAction::Finish(Ok(()))
            },
            InstallEvent::RebindRan(_) => InstallAction::Finish(Ok(())),
        }
    }
}

/// What the prepare-then-install pipeline is told.
#[derive(Debug)]
pub enum PipelineEvent {
    Start,
    Prepared(Result<(), PrepareDriverError>),
    Installed(Result<(), String>),
}

/// What the pipeline asks for next: run the prepare machine, run the
/// install machine, or stop.
#[derive(Debug)]
pub enum PipelineAction {
    Prepare,
    Install,
    Finish(Result<(), String>),
}

/// The pipeline rule: prepare first; install only after a successful
/// prepare; the first failure ends it, in words.
pub open spec fn pipeline_responds(e: PipelineEvent, a: PipelineAction) -> bool {
    match e {
        PipelineEvent::Start => a == PipelineAction::Prepare,
        PipelineEvent::Prepared(Ok(())) => a == PipelineAction::Install,
        PipelineEvent::Prepared(Err(PrepareDriverError::DriverNotFound)) => match a {
            PipelineAction::Finish(Err(t)) => t@ == "WinUSB driver files not found"@,
            _ => false,
        },
        PipelineEvent::Prepared(Err(err)) => match a {
            PipelineAction::Finish(Err(t)) => t@ == "Failed to prepare driver: "@ + prepare_error_text(err),
            _ => false,
        },
        PipelineEvent::Installed(Ok(())) => a == PipelineAction::Finish(Ok(())),
        PipelineEvent::Installed(Err(d)) => match a {
            PipelineAction::Finish(Err(t)) => t@ == "Failed to install driver: "@ + d@,
            _ => false,
        },
    }
}

/// One step of the prepare-then-install pipeline.
pub fn install_winusb_driver(event: PipelineEvent) -> (r: PipelineAction)
    ensures
        pipeline_responds(event, r),
{
    match event {
        PipelineEvent::Start => PipelineAction::Prepare,
        PipelineEvent::Prepared(Ok(())) => PipelineAction::Install,
        PipelineEvent::Prepared(Err(PrepareDriverError::DriverNotFound)) => PipelineAction::Finish(
            Err("WinUSB driver files not found".to_string()),
        ),
        PipelineEvent::Prepared(Err(err)) => {
            let text = err.message();
            PipelineAction::Finish(Err("Failed to prepare driver: ".to_string().concat(text.as_str())))
        },
        PipelineEvent::Installed(Ok(())) => PipelineAction::Finish(Ok(())),
        PipelineEvent::Installed(Err(d)) => PipelineAction::Finish(
            Err("Failed to install driver: ".to_string().concat(d.as_str())),
        ),
    }
}

/// The configuration installed for the GameCube adapter: its ids, its
/// name as the description, and "Nintendo" as the manufacturer.
pub fn gamecube_driver_config(registry: &DeviceIdentifiers) -> (r: Config)
    ensures
        r.vendor_id == registry.gamecube_mode.vid,
        r.product_id == registry.gamecube_mode.pid,
        r.description@ == registry.gamecube_mode.name@,
        r.manufacturer@ == "Nintendo"@,
{
    let gamecube = &registry.gamecube_mode;
    ConfigBuilder::new()
        .vendor_id(gamecube.vid)
        .product_id(gamecube.pid)
        .description(gamecube.name.as_str())
        .manufacturer("Nintendo")
        .build()
}

/// What the WinUSB install command is told.
#[derive(Debug)]
pub enum WinUsbEvent {
    Start,
    AdminChecked(bool),
    /// One scan of the bus (see [`crate::usb`]).
    BusScanned(Option<Vec<Option<(u16, u16)>>>),
    /// The prepare-then-install pipeline ended so.
    DriverInstalled(Result<(), String>),
}

/// What the WinUSB install command asks for next.
#[derive(Debug)]
pub enum WinUsbAction {
    CheckAdmin,
    ScanBus,
    /// Run the prepare-then-install pipeline for this configuration.
    InstallDriver(Config),
    Finish(DriverOperationResult),
}

/// `a` finishes with this success flag and message.
pub open spec fn command_finishes(a: WinUsbAction, success: bool, message: Seq<char>) -> bool {
    match a {
        WinUsbAction::Finish(res) => res.success == success && res.message@ == message,
        _ => false,
    }
}

/// The text given when the adapter is not on the bus.
pub open spec fn adapter_missing_text() -> Seq<char> {
    "GameCube adapter not found. Please make sure it is connected and in the correct mode."@
}

/// The command rule: admin first; the GameCube adapter must be on the bus,
/// else it stops before anything is prepared; then the pipeline runs for
/// the adapter's configuration.
pub open spec fn winusb_responds(reg: DeviceIdentifiers, e: WinUsbEvent, a: WinUsbAction) -> bool {
    match e {
        WinUsbEvent::Start => a == WinUsbAction::CheckAdmin,
        WinUsbEvent::AdminChecked(admin) => if admin {
            a == WinUsbAction::ScanBus
        } else {
            command_finishes(a, false, "Administrator privileges required"@)
        },
        WinUsbEvent::BusScanned(scan) => if scan_sees(
            scan_view(scan),
            reg.gamecube_mode.vid,
            reg.gamecube_mode.pid,
        ) {
            match a {
                WinUsbAction::InstallDriver(c) => c.vendor_id == reg.gamecube_mode.vid
                    && c.product_id == reg.gamecube_mode.pid && c.description@
                    == reg.gamecube_mode.name@ && c.manufacturer@ == "Nintendo"@,
                _ => false,
            }
        } else {
            command_finishes(a, false, adapter_missing_text())
        },
        WinUsbEvent::DriverInstalled(Ok(())) => command_finishes(
            a,
            true,
            "WinUSB driver successfully installed for GameCube adapter"@,
        ),
        WinUsbEvent::DriverInstalled(Err(d)) => command_finishes(
            a,
            false,
            "Failed to install WinUSB driver: "@ + d@,
        ),
    }
}

/// One step of the WinUSB install command.
pub fn install_winusb(registry: &DeviceIdentifiers, event: WinUsbEvent) -> (r: WinUsbAction)
    ensures
        winusb_responds(*registry, event, r),
{
    proof {
        reveal_strlit("");
    }
    match event {
        WinUsbEvent::Start => WinUsbAction::CheckAdmin,
        WinUsbEvent::AdminChecked(admin) => if admin {
            WinUsbAction::ScanBus
        } else {
            WinUsbAction::Finish(operation_result(false, "Administrator privileges required", ""))
        },
        WinUsbEvent::BusScanned(scan) => {
            let gamecube = &registry.gamecube_mode;
            if is_device_connected(gamecube.vid, gamecube.pid, &scan) {
                WinUsbAction::InstallDriver(gamecube_driver_config(registry))
            } else {
                WinUsbAction::Finish(
                    operation_result(
                        false,
                        "GameCube adapter not found. Please make sure it is connected and in the correct mode.",
                        "",
                    ),
                )
            }
        },
        WinUsbEvent::DriverInstalled(Ok(())) => WinUsbAction::Finish(
            operation_result(true, "WinUSB driver successfully installed for GameCube adapter", ""),
        ),
        WinUsbEvent::DriverInstalled(Err(d)) => WinUsbAction::Finish(
            operation_result(false, "Failed to install WinUSB driver: ", d.as_str()),
        ),
    }
}

/// With the standard registry, a scan that does not see the GameCube
/// adapter (vendor 0x057E, product 0x0337) ends the command with the
/// adapter-missing failure; nothing is prepared or installed.
pub proof fn lemma_absent_adapter_refused(
    reg: DeviceIdentifiers,
    scan: Option<Vec<Option<(u16, u16)>>>,
    a: WinUsbAction,
)
    requires
        is_standard_registry(reg),
        !scan_sees(scan_view(scan), 0x057E, 0x0337),
        winusb_responds(reg, WinUsbEvent::BusScanned(scan), a),
    ensures
        command_finishes(a, false, adapter_missing_text()),
        !(a is InstallDriver),
{
}

} // verus!
