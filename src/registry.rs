//! The fixed table of USB identities that the adapter can present.

use vstd::prelude::*;

verus! {

/// One USB identity: vendor id, product id and a friendly name.
#[derive(Debug, Clone)]
pub struct UsbDeviceInfo {
    pub vid: u16,
    pub pid: u16,
    pub name: String,
}

/// The five modes the adapter can be found in.
#[derive(Debug, Clone)]
pub struct DeviceIdentifiers {
    pub default_mode: UsbDeviceInfo,
    pub config_mode: UsbDeviceInfo,
    pub bootsel_mode: UsbDeviceInfo,
    pub switch_mode: UsbDeviceInfo,
    pub gamecube_mode: UsbDeviceInfo,
}

/// The (vendor id, product id) pair of an identity.
pub open spec fn id_pair(info: UsbDeviceInfo) -> (u16, u16) {
    (info.vid, info.pid)
}

/// The registry's entries: exactly these five identities.
pub open spec fn is_standard_registry(r: DeviceIdentifiers) -> bool {
    &&& id_pair(r.default_mode) == (0x0738u16, 0x4726u16)
    &&& r.default_mode.name@ == "Default Mode"@
    &&& id_pair(r.config_mode) == (0x2E8Au16, 0x000Au16)
    &&& r.config_mode.name@ == "Config Mode"@
    &&& id_pair(r.bootsel_mode) == (0x2E8Au16, 0x0003u16)
    &&& r.bootsel_mode.name@ == "BOOTSEL Mode"@
    &&& id_pair(r.switch_mode) == (0x0F0Du16, 0x0092u16)
    &&& r.switch_mode.name@ == "Switch Mode"@
    &&& id_pair(r.gamecube_mode) == (0x057Eu16, 0x0337u16)
    &&& r.gamecube_mode.name@ == "GameCube Adapter"@
}

fn identity(vid: u16, pid: u16, name: &str) -> (r: UsbDeviceInfo)
    ensures
        r.vid == vid,
        r.pid == pid,
        r.name@ == name@,
{
    UsbDeviceInfo { vid, pid, name: name.to_string() }
}

/// The registry of known identities. It reads no hardware state.
pub fn get_device_identifiers() -> (r: DeviceIdentifiers)
    ensures
        is_standard_registry(r),
{
    DeviceIdentifiers {
        default_mode: identity(0x0738, 0x4726, "Default Mode"),
        config_mode: identity(0x2E8A, 0x000A, "Config Mode"),
        bootsel_mode: identity(0x2E8A, 0x0003, "BOOTSEL Mode"),
        switch_mode: identity(0x0F0D, 0x0092, "Switch Mode"),
        gamecube_mode: identity(0x057E, 0x0337, "GameCube Adapter"),
    }
}

impl DeviceIdentifiers {
    /// The pairs of the four modes other than the GameCube adapter, in the
    /// order default, config, BOOTSEL, switch.
    pub fn status_pairs(&self) -> (r: Vec<(u16, u16)>)
        ensures
            r@ == seq![
                id_pair(self.default_mode),
                id_pair(self.config_mode),
                id_pair(self.bootsel_mode),
                id_pair(self.switch_mode),
            ],
    {
        let r = vec![
            (self.default_mode.vid, self.default_mode.pid),
            (self.config_mode.vid, self.config_mode.pid),
            (self.bootsel_mode.vid, self.bootsel_mode.pid),
            (self.switch_mode.vid, self.switch_mode.pid),
        ];
        assert(r@ =~= seq![
            id_pair(self.default_mode),
            id_pair(self.config_mode),
            id_pair(self.bootsel_mode),
            id_pair(self.switch_mode),
        ]);
        r
    }
}

} // verus!
