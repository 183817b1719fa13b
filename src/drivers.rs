//! The driver-database side: which query to run, and what its records mean.
//!
//! The database itself is reached by the caller; this module builds the
//! query text, decides when no query is needed, and projects the records
//! it returned.

use vstd::prelude::*;
use crate::text::{contains_seq, contains_text, format_hex4, hex4};
use crate::usb::{is_device_connected, scan_sees, scan_view};

verus! {

broadcast use vstd::string::group_string_axioms;

/// One record of the driver database, with the fields the database may lack
/// left absent.
#[derive(Debug, Clone)]
pub struct DriverRecord {
    pub device_id: String,
    pub name: Option<String>,
    pub driver_provider: Option<String>,
    pub driver_version: Option<String>,
    pub driver_date: Option<String>,
}

/// What is reported of one device's driver.
#[derive(Debug, Clone)]
pub struct DriverInfo {
    pub device_id: String,
    pub device_name: String,
    pub driver_provider: Option<String>,
    pub driver_version: Option<String>,
    pub driver_date: Option<String>,
    pub is_winusb: bool,
}

/// How reaching the driver database failed, with the database's own words.
#[derive(Debug, Clone)]
pub enum DriverDbError {
    Init(String),
    Query(String),
}

/// The optional text as a character sequence.
pub open spec fn opt_text(o: Option<String>) -> Option<Seq<char>> {
    match o {
        Some(s) => Some(s@),
        None => None,
    }
}

/// A provider names WinUSB when it is present and contains "WinUSB".
pub open spec fn provider_is_winusb(provider: Option<Seq<char>>) -> bool {
    match provider {
        Some(p) => contains_seq(p, "WinUSB"@),
        None => false,
    }
}

/// `info` is the projection of `record`: fields passed through, a missing
/// name reported as "Unknown Device", and the WinUSB flag derived from the
/// provider.
pub open spec fn describes(info: DriverInfo, record: DriverRecord) -> bool {
    &&& info.device_id@ == record.device_id@
    &&& info.device_name@ == match record.name {
        Some(n) => n@,
        None => "Unknown Device"@,
    }
    &&& opt_text(info.driver_provider) == opt_text(record.driver_provider)
    &&& opt_text(info.driver_version) == opt_text(record.driver_version)
    &&& opt_text(info.driver_date) == opt_text(record.driver_date)
    &&& info.is_winusb == provider_is_winusb(opt_text(record.driver_provider))
}

/// A device-identifier filter: `DeviceID LIKE '%<tag><hex>%'`.
pub open spec fn like_hex(tag: Seq<char>, v: u16) -> Seq<char> {
    "DeviceID LIKE '%"@ + tag + hex4(v) + "%'"@
}

/// The driver-info query for the given filters; with neither, every USB
/// device.
pub open spec fn info_query(vendor_id: Option<u16>, product_id: Option<u16>) -> Seq<char> {
    let head = "SELECT DeviceID, Name, DriverProvider, DriverVersion, DriverDate FROM Win32_PnPEntity WHERE "@;
    match (vendor_id, product_id) {
        (Some(v), Some(p)) => head + like_hex("VID_"@, v) + " AND "@ + like_hex("PID_"@, p),
        (Some(v), None) => head + like_hex("VID_"@, v),
        (None, Some(p)) => head + like_hex("PID_"@, p),
        (None, None) => head + "DeviceID LIKE '%USB%'"@,
    }
}

/// The query that reads the providers bound to one exact pair.
pub open spec fn provider_query(vid: u16, pid: u16) -> Seq<char> {
    "SELECT DeviceID, DriverProvider FROM Win32_PnPEntity WHERE "@ + like_hex("VID\\_"@, vid)
        + " AND "@ + like_hex("PID\\_"@, pid)
}

/// The text of a driver-database failure as shown to the caller.
pub open spec fn db_error_text(e: DriverDbError) -> Seq<char> {
    match e {
        DriverDbError::Init(d) => "Failed to initialize WMI: "@ + d@,
        DriverDbError::Query(d) => "Failed to query WMI: "@ + d@,
    }
}

/// Whether the provider names WinUSB.
pub fn is_winusb_provider(provider: &Option<String>) -> (r: bool)
    ensures
        r == provider_is_winusb(opt_text(*provider)),
{
    match provider {
        Some(p) => contains_text(p.as_str(), "WinUSB"),
        None => false,
    }
}

fn copy_text(o: &Option<String>) -> (r: Option<String>)
    ensures
        opt_text(r) == opt_text(*o),
{
    match o {
        Some(s) => Some(s.clone()),
        None => None,
    }
}

impl DriverInfo {
    /// The report of one database record.
    pub fn from_record(record: &DriverRecord) -> (r: DriverInfo)
        ensures
            describes(r, *record),
    {
        let device_name = match &record.name {
            Some(n) => n.clone(),
            None => "Unknown Device".to_string(),
        };
        DriverInfo {
            device_id: record.device_id.clone(),
            device_name,
            driver_provider: copy_text(&record.driver_provider),
            driver_version: copy_text(&record.driver_version),
            driver_date: copy_text(&record.driver_date),
            is_winusb: is_winusb_provider(&record.driver_provider),
        }
    }
}

impl DriverDbError {
    /// The text shown to the caller.
    pub fn message(&self) -> (r: String)
        ensures
            r@ == db_error_text(*self),
    {
        match self {
            DriverDbError::Init(d) => "Failed to initialize WMI: ".to_string().concat(d.as_str()),
            DriverDbError::Query(d) => "Failed to query WMI: ".to_string().concat(d.as_str()),
        }
    }
}

fn like_clause(tag: &str, v: u16) -> (r: String)
    ensures
        r@ == like_hex(tag@, v),
{
    let hex = format_hex4(v);
    "DeviceID LIKE '%".to_string().concat(tag).concat(hex.as_str()).concat("%'")
}

/// The text of the driver-info query for the given filters.
pub fn driver_info_query(vendor_id: Option<u16>, product_id: Option<u16>) -> (r: String)
    ensures
        r@ == info_query(vendor_id, product_id),
{
    let head = "SELECT DeviceID, Name, DriverProvider, DriverVersion, DriverDate FROM Win32_PnPEntity WHERE "
        .to_string();
    match (vendor_id, product_id) {
        (Some(v), Some(p)) => {
            let vc = like_clause("VID_", v);
            let pc = like_clause("PID_", p);
            head.concat(vc.as_str()).concat(" AND ").concat(pc.as_str())
        },
        (Some(v), None) => {
            let vc = like_clause("VID_", v);
            head.concat(vc.as_str())
        },
        (None, Some(p)) => {
            let pc = like_clause("PID_", p);
            head.concat(pc.as_str())
        },
        (None, None) => head.concat("DeviceID LIKE '%USB%'"),
    }
}

/// The pair whose presence must be checked before a driver-info query: only
/// when both filters are given.
pub fn driver_info_presence_check(vendor_id: Option<u16>, product_id: Option<u16>) -> (r: Option<(u16, u16)>)
    ensures
        r == match (vendor_id, product_id) {
            (Some(v), Some(p)) => Some((v, p)),
            _ => None,
        },
{
    match (vendor_id, product_id) {
        (Some(v), Some(p)) => Some((v, p)),
        _ => None,
    }
}

/// A driver-info request needs no query when both filters are given and
/// the scan does not see that device.
pub open spec fn answered_without_query(
    vendor_id: Option<u16>,
    product_id: Option<u16>,
    scan: Option<Seq<Option<(u16, u16)>>>,
) -> bool {
    match (vendor_id, product_id) {
        (Some(v), Some(p)) => !scan_sees(scan, v, p),
        _ => false,
    }
}

/// Decides a driver-info request. `scan` is the bus scan taken for the
/// presence check (ignored unless both filters are given). `None`: answer
/// with no records, without querying the database. `Some(q)`: run `q`.
pub fn plan_driver_info_query(
    vendor_id: Option<u16>,
    product_id: Option<u16>,
    scan: &Option<Vec<Option<(u16, u16)>>>,
) -> (r: Option<String>)
    ensures
        answered_without_query(vendor_id, product_id, scan_view(*scan)) ==> r is None,
        !answered_without_query(vendor_id, product_id, scan_view(*scan)) ==> r is Some
            && r->0@ == info_query(vendor_id, product_id),
{
    if let (Some(v), Some(p)) = (vendor_id, product_id) {
        if !is_device_connected(v, p, scan) {
            return None;
        }
    }
    Some(driver_info_query(vendor_id, product_id))
}

/// The answer to a driver-info request from what the database returned:
/// one report per record, in order, or the failure's text.
pub fn driver_info_result(fetched: &Result<Vec<DriverRecord>, DriverDbError>) -> (r: Result<Vec<DriverInfo>, String>)
    ensures
        match (*fetched, r) {
            (Ok(records), Ok(infos)) => infos@.len() == records@.len() && forall|i: int|
                0 <= i < infos@.len() ==> describes(#[trigger] infos@[i], records@[i]),
            (Err(e), Err(t)) => t@ == db_error_text(e),
            _ => false,
        },
{
    match fetched {
        Err(e) => Err(e.message()),
        Ok(records) => {
            let n = records.len();
            let mut infos: Vec<DriverInfo> = Vec::new();
            let mut i: usize = 0;
            while i < n
                invariant
                    n == records@.len(),
                    i <= n,
                    infos@.len() == i,
                    forall|j: int| 0 <= j < i ==> describes(#[trigger] infos@[j], records@[j]),
                decreases n - i,
            {
                infos.push(DriverInfo::from_record(&records[i]));
                i = i + 1;
            }
            Ok(infos)
        },
    }
}

/// Decides the WinUSB check for one pair: `None` when the scan does not see
/// the device (the answer is then "not bound", with no query); otherwise the
/// provider query to run.
pub fn plan_winusb_check(vid: u16, pid: u16, scan: &Option<Vec<Option<(u16, u16)>>>) -> (r: Option<String>)
    ensures
        !scan_sees(scan_view(*scan), vid, pid) ==> r is None,
        scan_sees(scan_view(*scan), vid, pid) ==> r is Some && r->0@ == provider_query(vid, pid),
{
    if !is_device_connected(vid, pid, scan) {
        return None;
    }
    let vc = like_clause("VID\\_", vid);
    let pc = like_clause("PID\\_", pid);
    Some(
        "SELECT DeviceID, DriverProvider FROM Win32_PnPEntity WHERE ".to_string().concat(
            vc.as_str(),
        ).concat(" AND ").concat(pc.as_str()),
    )
}

/// Whether any of the providers the query returned names WinUSB.
pub fn winusb_bound(providers: &[Option<String>]) -> (r: bool)
    ensures
        r == exists|i: int|
            0 <= i < providers@.len() && provider_is_winusb(opt_text(#[trigger] providers@[i])),
{
    let n = providers.len();
    let mut i: usize = 0;
    while i < n
        invariant
            n == providers@.len(),
            i <= n,
            forall|j: int| 0 <= j < i ==> !provider_is_winusb(opt_text(#[trigger] providers@[j])),
        decreases n - i,
    {
        if is_winusb_provider(&providers[i]) {
            return true;
        }
        i = i + 1;
    }
    false
}

/// The WinUSB answer from the check's run: `None` when no query was needed
/// (the device is absent: not bound), else what the query returned. A
/// failed query gives no answer (`None`).
pub fn winusb_check_outcome(fetched: &Option<Result<Vec<Option<String>>, DriverDbError>>) -> (r: Option<bool>)
    ensures
        match *fetched {
            None => r == Some(false),
            Some(Err(_)) => r is None,
            Some(Ok(providers)) => r == Some(
                exists|i: int|
                    0 <= i < providers@.len() && provider_is_winusb(opt_text(#[trigger] providers@[i])),
            ),
        },
{
    match fetched {
        None => Some(false),
        Some(Err(_)) => None,
        Some(Ok(providers)) => Some(winusb_bound(providers.as_slice())),
    }
}

} // verus!
