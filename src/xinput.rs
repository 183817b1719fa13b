//! The XInput DLL at the system path: uninstall by renaming it to a backup,
//! reinstall by copying the bundled copy over it.
//!
//! Each operation is a machine: the caller performs the action it returns
//! and hands back what happened, until the machine finishes.

use vstd::prelude::*;
use crate::operation::{operation_result, DriverOperationResult};

verus! {

broadcast use vstd::string::group_string_axioms;

/// Why an XInput operation failed.
#[derive(Debug, Clone)]
pub enum XInputError {
    /// The privilege probe failed.
    PermissionDenied,
    /// Renaming the DLL to its backup failed, with the system's words.
    RenameFailed(String),
    /// Copying the bundled DLL failed, with the system's words.
    CopyFailed(String),
    /// The running executable's path could not be found.
    ExecutablePath(String),
    /// The running executable's path has no parent directory.
    ExecutableParent,
}

/// What the uninstall machine is told.
#[derive(Debug)]
pub enum UninstallEvent {
    Start,
    AdminChecked(bool),
    DllProbed(bool),
    Renamed(Result<(), String>),
}

/// What the uninstall machine asks for next.
#[derive(Debug)]
pub enum UninstallAction {
    CheckAdmin,
    ProbeDll,
    RenameToBackup,
    Finish(Result<(), XInputError>),
}

/// What the reinstall machine is told.
#[derive(Debug)]
pub enum ReinstallEvent {
    Start,
    AdminChecked(bool),
    /// `Err(Some(d))`: the executable's path was not found; `Err(None)`: it
    /// has no parent directory.
    ExecutableDirFound(Result<(), Option<String>>),
    Copied(Result<(), String>),
}

/// What the reinstall machine asks for next.
#[derive(Debug)]
pub enum ReinstallAction {
    CheckAdmin,
    LocateExecutableDir,
    CopyBundledDll,
    Finish(Result<(), XInputError>),
}

/// The text of an XInput failure.
pub open spec fn xinput_error_text(e: XInputError) -> Seq<char> {
    match e {
        XInputError::PermissionDenied => "Administrator privileges required"@,
        XInputError::RenameFailed(d) => "Failed to rename xinput1_4.dll: "@ + d@,
        XInputError::CopyFailed(d) => "Failed to copy xinput1_4.dll: "@ + d@,
        XInputError::ExecutablePath(d) => "Could not find executable path: "@ + d@,
        XInputError::ExecutableParent => "Could not find executable parent directory"@,
    }
}

/// The uninstall rule: admin first; a missing DLL is already uninstalled;
/// a present one is renamed to its backup.
pub open spec fn uninstall_next(e: UninstallEvent) -> UninstallAction {
    match e {
        UninstallEvent::Start => UninstallAction::CheckAdmin,
        UninstallEvent::AdminChecked(admin) => if admin {
            UninstallAction::ProbeDll
        } else {
            UninstallAction::Finish(Err(XInputError::PermissionDenied))
        },
        UninstallEvent::DllProbed(present) => if present {
            UninstallAction::RenameToBackup
        } else {
            UninstallAction::Finish(Ok(()))
        },
        UninstallEvent::Renamed(Ok(())) => UninstallAction::Finish(Ok(())),
        UninstallEvent::Renamed(Err(d)) => UninstallAction::Finish(Err(XInputError::RenameFailed(d))),
    }
}

/// The reinstall rule: admin first, then the executable's directory, then
/// the copy over the system path.
pub open spec fn reinstall_next(e: ReinstallEvent) -> ReinstallAction {
    match e {
        ReinstallEvent::Start => ReinstallAction::CheckAdmin,
        ReinstallEvent::AdminChecked(admin) => if admin {
            ReinstallAction::LocateExecutableDir
        } else {
            ReinstallAction::Finish(Err(XInputError::PermissionDenied))
        },
        ReinstallEvent::ExecutableDirFound(Ok(())) => ReinstallAction::CopyBundledDll,
        ReinstallEvent::ExecutableDirFound(Err(Some(d))) => ReinstallAction::Finish(
            Err(XInputError::ExecutablePath(d)),
        ),
        ReinstallEvent::ExecutableDirFound(Err(None)) => ReinstallAction::Finish(
            Err(XInputError::ExecutableParent),
        ),
        ReinstallEvent::Copied(Ok(())) => ReinstallAction::Finish(Ok(())),
        ReinstallEvent::Copied(Err(d)) => ReinstallAction::Finish(Err(XInputError::CopyFailed(d))),
    }
}

impl XInputError {
    /// The text shown to the caller.
    pub fn message(&self) -> (r: String)
        ensures
            r@ == xinput_error_text(*self),
    {
        match self {
            XInputError::PermissionDenied => "Administrator privileges required".to_string(),
            XInputError::RenameFailed(d) => "Failed to rename xinput1_4.dll: ".to_string().concat(d.as_str()),
            XInputError::CopyFailed(d) => "Failed to copy xinput1_4.dll: ".to_string().concat(d.as_str()),
            XInputError::ExecutablePath(d) => "Could not find executable path: ".to_string().concat(d.as_str()),
            XInputError::ExecutableParent => "Could not find executable parent directory".to_string(),
        }
    }
}

/// One step of the uninstall machine.
pub fn uninstall_xinput_driver(event: UninstallEvent) -> (r: UninstallAction)
    ensures
        r == uninstall_next(event),
{
    match event {
        UninstallEvent::Start => UninstallAction::CheckAdmin,
        UninstallEvent::AdminChecked(admin) => if admin {
            UninstallAction::ProbeDll
        } else {
            UninstallAction::Finish(Err(XInputError::PermissionDenied))
        },
        UninstallEvent::DllProbed(present) => if present {
            UninstallAction::RenameToBackup
        } else {
            UninstallAction::Finish(Ok(()))
        },
        UninstallEvent::Renamed(Ok(())) => UninstallAction::Finish(Ok(())),
        UninstallEvent::Renamed(Err(d)) => UninstallAction::Finish(Err(XInputError::RenameFailed(d))),
    }
}

/// One step of the reinstall machine.
pub fn reinstall_xinput_driver(event: ReinstallEvent) -> (r: ReinstallAction)
    ensures
        r == reinstall_next(event),
{
    match event {
        ReinstallEvent::Start => ReinstallAction::CheckAdmin,
        ReinstallEvent::AdminChecked(admin) => if admin {
            ReinstallAction::LocateExecutableDir
        } else {
            ReinstallAction::Finish(Err(XInputError::PermissionDenied))
        },
        ReinstallEvent::ExecutableDirFound(Ok(())) => ReinstallAction::CopyBundledDll,
        ReinstallEvent::ExecutableDirFound(Err(Some(d))) => ReinstallAction::Finish(
            Err(XInputError::ExecutablePath(d)),
        ),
        ReinstallEvent::ExecutableDirFound(Err(None)) => ReinstallAction::Finish(
            Err(XInputError::ExecutableParent),
        ),
        ReinstallEvent::Copied(Ok(())) => ReinstallAction::Finish(Ok(())),
        ReinstallEvent::Copied(Err(d)) => ReinstallAction::Finish(Err(XInputError::CopyFailed(d))),
    }
}

/// The reported outcome of an uninstall.
pub fn uninstall_xinput(outcome: &Result<(), XInputError>) -> (r: DriverOperationResult)
    ensures
        r.success == outcome is Ok,
        r.message@ == match *outcome {
            Ok(()) => "XInput driver successfully uninstalled"@,
            Err(e) => "Failed to uninstall XInput driver: "@ + xinput_error_text(e),
        },
{
    match outcome {
        Ok(()) => {
            proof {
                reveal_strlit("");
            }
            operation_result(true, "XInput driver successfully uninstalled", "")
        },
        Err(e) => {
            let text = e.message();
            operation_result(false, "Failed to uninstall XInput driver: ", text.as_str())
        },
    }
}

/// The reported outcome of a reinstall.
pub fn reinstall_xinput(outcome: &Result<(), XInputError>) -> (r: DriverOperationResult)
    ensures
        r.success == outcome is Ok,
        r.message@ == match *outcome {
            Ok(()) => "XInput driver successfully reinstalled"@,
            Err(e) => "Failed to reinstall XInput driver: "@ + xinput_error_text(e),
        },
{
    match outcome {
        Ok(()) => {
            proof {
                reveal_strlit("");
            }
            operation_result(true, "XInput driver successfully reinstalled", "")
        },
        Err(e) => {
            let text = e.message();
            operation_result(false, "Failed to reinstall XInput driver: ", text.as_str())
        },
    }
}

/// The files at the system path: the DLL, and its backup beside it.
#[derive(Debug, Clone, Copy, PartialEq, Eq, Structural)]
pub struct XInputFiles {
    pub dll: bool,
    pub backup: bool,
}

/// What a host answers to an uninstall action when the privilege probe
/// gives `admin` and the rename succeeds, and how the files change. A
/// finished machine asks for nothing, and the files stay as they are.
pub open spec fn uninstall_host(a: UninstallAction, files: XInputFiles, admin: bool) -> (UninstallEvent, XInputFiles) {
    match a {
        UninstallAction::CheckAdmin => (UninstallEvent::AdminChecked(admin), files),
        UninstallAction::ProbeDll => (UninstallEvent::DllProbed(files.dll), files),
        UninstallAction::RenameToBackup => (
            UninstallEvent::Renamed(Ok(())),
            XInputFiles { dll: false, backup: true },
        ),
        UninstallAction::Finish(_) => (UninstallEvent::Start, files),
    }
}

/// Runs the uninstall machine against that host for at most `fuel` steps:
/// the outcome, if it finished, and the files afterwards.
pub open spec fn run_uninstall(e: UninstallEvent, files: XInputFiles, admin: bool, fuel: nat) -> (
    Option<Result<(), XInputError>>,
    XInputFiles,
)
    decreases fuel,
{
    match uninstall_next(e) {
        UninstallAction::Finish(r) => (Some(r), files),
        a => if fuel == 0 {
            (None, files)
        } else {
            let (e2, f2) = uninstall_host(a, files, admin);
            run_uninstall(e2, f2, admin, (fuel - 1) as nat)
        },
    }
}

/// Uninstalling twice in a row with administrator rights succeeds both
/// times: the first run moves a present DLL to its backup, the second finds
/// no DLL, succeeds, and changes nothing.
pub proof fn lemma_uninstall_idempotent(files: XInputFiles)
    ensures
        ({
            let (r1, f1) = run_uninstall(UninstallEvent::Start, files, true, 4);
            let (r2, f2) = run_uninstall(UninstallEvent::Start, f1, true, 4);
            &&& r1 == Some(Ok::<(), XInputError>(()))
            &&& r2 == Some(Ok::<(), XInputError>(()))
            &&& !f1.dll
            &&& files.dll ==> f1.backup
            &&& !files.dll ==> f1 == files
            &&& f2 == f1
        }),
{
    reveal_with_fuel(run_uninstall, 5);
}

} // verus!
