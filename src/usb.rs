//! Matching one enumeration of the USB bus against wanted identities.
//!
//! A scan is what one enumeration reported: for each attached device the
//! (vendor id, product id) read from its descriptor, or `None` where the
//! descriptor could not be read; the scan itself is `None` where the USB
//! subsystem could not be opened or enumerated.

use vstd::prelude::*;

verus! {

/// The descriptors of a scan, as a sequence.
pub open spec fn scan_view(scan: Option<Vec<Option<(u16, u16)>>>) -> Option<Seq<Option<(u16, u16)>>> {
    match scan {
        Some(devices) => Some(devices@),
        None => None,
    }
}

/// Whether a device with exactly this pair was seen. A failed scan sees
/// nothing, and neither does an unreadable descriptor.
pub open spec fn scan_sees(scan: Option<Seq<Option<(u16, u16)>>>, vid: u16, pid: u16) -> bool {
    match scan {
        Some(devices) => devices.contains(Some((vid, pid))),
        None => false,
    }
}

/// For each wanted pair, in order, whether at least one device of the scan
/// has it.
pub fn is_device_connected_batch(
    devices_to_check: &[(u16, u16)],
    scan: &Option<Vec<Option<(u16, u16)>>>,
) -> (r: Vec<bool>)
    ensures
        r@.len() == devices_to_check@.len(),
        forall|i: int|
            0 <= i < r@.len() ==> r@[i] == scan_sees(
                scan_view(*scan),
                devices_to_check@[i].0,
                devices_to_check@[i].1,
            ),
{
    let n = devices_to_check.len();
    let mut results: Vec<bool> = Vec::new();
    let mut i: usize = 0;
    while i < n
        invariant
            n == devices_to_check@.len(),
            i <= n,
            results@ == Seq::new(i as nat, |_j: int| false),
        decreases n - i,
    {
        results.push(false);
        i = i + 1;
        assert(results@ =~= Seq::new(i as nat, |_j: int| false));
    }
    match scan {
        None => results,
        Some(devices) => {
            let m = devices.len();
            let mut d: usize = 0;
            while d < m
                invariant
                    n == devices_to_check@.len(),
                    m == devices@.len(),
                    d <= m,
                    results@.len() == n,
                    forall|i: int|
                        0 <= i < n ==> results@[i] == devices@.subrange(0, d as int).contains(
                            Some(devices_to_check@[i]),
                        ),
                decreases m - d,
            {
                let ghost seen = devices@.subrange(0, d as int);
                let ghost next = devices@.subrange(0, d + 1);
                assert(next =~= seen.push(devices@[d as int]));
                assert forall|x: Option<(u16, u16)>| next.contains(x) == (seen.contains(x) || x == devices@[d as int]) by {
                    if x == devices@[d as int] {
                        assert(next[d as int] == x);
                    }
                    if seen.contains(x) {
                        let k = choose|k: int| 0 <= k < seen.len() && seen[k] == x;
                        assert(next[k] == x);
                    }
                    if next.contains(x) && x != devices@[d as int] {
                        let k = choose|k: int| 0 <= k < next.len() && next[k] == x;
                        assert(seen[k] == x);
                    }
                }
                if let Some((vid, pid)) = devices[d] {
                    let mut i: usize = 0;
                    while i < n
                        invariant
                            n == devices_to_check@.len(),
                            m == devices@.len(),
                            d < m,
                            i <= n,
                            results@.len() == n,
                            devices@[d as int] == Some((vid, pid)),
                            forall|x: Option<(u16, u16)>| #[trigger] next.contains(x) == (seen.contains(x) || x == devices@[d as int]),
                            forall|j: int|
                                0 <= j < i ==> results@[j] == next.contains(Some(devices_to_check@[j])),
                            forall|j: int|
                                i <= j < n ==> results@[j] == seen.contains(Some(devices_to_check@[j])),
                        decreases n - i,
                    {
                        let (want_vid, want_pid) = devices_to_check[i];
                        if vid == want_vid && pid == want_pid {
                            results.set(i, true);
                        }
                        i = i + 1;
                    }
                }
                d = d + 1;
            }
            assert(devices@.subrange(0, m as int) =~= devices@);
            results
        },
    }
}

/// Whether at least one device of the scan has this pair.
pub fn is_device_connected(vid: u16, pid: u16, scan: &Option<Vec<Option<(u16, u16)>>>) -> (r: bool)
    ensures
        r == scan_sees(scan_view(*scan), vid, pid),
{
    match scan {
        None => false,
        Some(devices) => {
            let m = devices.len();
            let mut d: usize = 0;
            while d < m
                invariant
                    scan_view(*scan) == Some(devices@),
                    m == devices@.len(),
                    d <= m,
                    forall|k: int| 0 <= k < d ==> devices@[k] != Some((vid, pid)),
                decreases m - d,
            {
                if let Some((v, p)) = devices[d] {
                    if v == vid && p == pid {
                        assert(devices@[d as int] == Some((vid, pid)));
                        assert(devices@.contains(Some((vid, pid))));
                        return true;
                    }
                }
                d = d + 1;
            }
            false
        },
    }
}

/// A scan answers the same whatever order the bus listed its devices in:
/// two scans holding the same descriptors, counted with multiplicity, see
/// exactly the same pairs.
pub proof fn lemma_scan_order_independent(
    a: Seq<Option<(u16, u16)>>,
    b: Seq<Option<(u16, u16)>>,
    vid: u16,
    pid: u16,
)
    requires
        a.to_multiset() == b.to_multiset(),
    ensures
        scan_sees(Some(a), vid, pid) == scan_sees(Some(b), vid, pid),
{
    a.to_multiset_ensures();
    b.to_multiset_ensures();
    let x = Some((vid, pid));
    assert(a.contains(x) == (a.to_multiset().count(x) > 0));
    assert(b.contains(x) == (b.to_multiset().count(x) > 0));
}

} // verus!
