//! One consolidated snapshot of the adapter's modes and drivers, built from
//! sub-checks that may each fail without spoiling the others.

use vstd::prelude::*;
use crate::registry::DeviceIdentifiers;
use crate::usb::{is_device_connected, is_device_connected_batch, scan_sees, scan_view};

verus! {

/// Which modes are connected and which drivers are present, at one moment.
#[derive(Debug, Clone, Copy, PartialEq, Eq, Structural)]
pub struct DeviceStatus {
    pub default_mode_connected: bool,
    pub config_mode_connected: bool,
    pub bootsel_mode_connected: bool,
    pub switch_mode_connected: bool,
    pub xinput_installed: bool,
    pub gamecube_adapter_connected: bool,
    pub winusb_installed: bool,
}

/// The snapshot from the four sub-checks: the batched scan of the four
/// non-GameCube modes, the dedicated GameCube scan, the XInput DLL probe and
/// the WinUSB check. A failed sub-check (`None`) reports `false` for its own
/// fields and touches no other.
pub open spec fn status_of(
    reg: DeviceIdentifiers,
    batch: Option<Seq<Option<(u16, u16)>>>,
    gamecube: Option<Seq<Option<(u16, u16)>>>,
    xinput: Option<bool>,
    winusb: Option<bool>,
) -> DeviceStatus {
    DeviceStatus {
        default_mode_connected: scan_sees(batch, reg.default_mode.vid, reg.default_mode.pid),
        config_mode_connected: scan_sees(batch, reg.config_mode.vid, reg.config_mode.pid),
        bootsel_mode_connected: scan_sees(batch, reg.bootsel_mode.vid, reg.bootsel_mode.pid),
        switch_mode_connected: scan_sees(batch, reg.switch_mode.vid, reg.switch_mode.pid),
        xinput_installed: xinput == Some(true),
        gamecube_adapter_connected: scan_sees(gamecube, reg.gamecube_mode.vid, reg.gamecube_mode.pid),
        winusb_installed: winusb == Some(true),
    }
}

/// Builds the snapshot. It never fails: each sub-check's failure only
/// turns its own fields to `false`.
pub fn get_current_device_status(
    registry: &DeviceIdentifiers,
    batch_scan: &Option<Vec<Option<(u16, u16)>>>,
    gamecube_scan: &Option<Vec<Option<(u16, u16)>>>,
    xinput_present: Option<bool>,
    winusb_bound: Option<bool>,
) -> (r: DeviceStatus)
    ensures
        r == status_of(
            *registry,
            scan_view(*batch_scan),
            scan_view(*gamecube_scan),
            xinput_present,
            winusb_bound,
        ),
{
    let pairs = registry.status_pairs();
    let connected = is_device_connected_batch(pairs.as_slice(), batch_scan);
    let gamecube = &registry.gamecube_mode;
    DeviceStatus {
        default_mode_connected: connected[0],
        config_mode_connected: connected[1],
        bootsel_mode_connected: connected[2],
        switch_mode_connected: connected[3],
        xinput_installed: match xinput_present {
            Some(b) => b,
            None => false,
        },
        gamecube_adapter_connected: is_device_connected(gamecube.vid, gamecube.pid, gamecube_scan),
        winusb_installed: match winusb_bound {
            Some(b) => b,
            None => false,
        },
    }
}

/// A failure injected into any one sub-check turns only that sub-check's
/// fields to `false`; every other field is what it would have been.
pub proof fn lemma_status_failure_is_local(
    reg: DeviceIdentifiers,
    batch: Option<Seq<Option<(u16, u16)>>>,
    gamecube: Option<Seq<Option<(u16, u16)>>>,
    xinput: Option<bool>,
    winusb: Option<bool>,
)
    ensures
        ({
            let ok = status_of(reg, batch, gamecube, xinput, winusb);
            &&& status_of(reg, None, gamecube, xinput, winusb) == (DeviceStatus {
                default_mode_connected: false,
                config_mode_connected: false,
                bootsel_mode_connected: false,
                switch_mode_connected: false,
                ..ok
            })
            &&& status_of(reg, batch, None, xinput, winusb) == (DeviceStatus {
                gamecube_adapter_connected: false,
                ..ok
            })
            &&& status_of(reg, batch, gamecube, None, winusb) == (DeviceStatus {
                xinput_installed: false,
                ..ok
            })
            &&& status_of(reg, batch, gamecube, xinput, None) == (DeviceStatus {
                winusb_installed: false,
                ..ok
            })
        }),
{
}

} // verus!
