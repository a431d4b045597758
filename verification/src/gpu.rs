//! Graphics devices as the host reports them.

use vstd::prelude::*;

verus! {

/// Who made a device, and so which encoder drives it.
#[derive(Debug, Clone, Copy, PartialEq, Eq, Structural)]
pub enum GpuVendor {
    Nvidia,
    Amd,
    Intel,
}

impl GpuVendor {
    /// The vendor's name in diagnostics.
    pub open spec fn label(self) -> Seq<char> {
        match self {
            GpuVendor::Nvidia => "Nvidia"@,
            GpuVendor::Amd => "Amd"@,
            GpuVendor::Intel => "Intel"@,
        }
    }

    /// The vendor's name in diagnostics.
    pub fn name(self) -> (s: &'static str)
        ensures
            s@ == self.label(),
    {
        match self {
            GpuVendor::Nvidia => "Nvidia",
            GpuVendor::Amd => "Amd",
            GpuVendor::Intel => "Intel",
        }
    }
}

/// One device on this host.
#[derive(Debug, Clone)]
pub struct GpuDevice {
    /// Index over all devices of the host.
    pub index: u32,
    pub vendor: GpuVendor,
    pub name: String,
    pub generation: String,
    pub pci_id: String,
    pub vram_mib: u64,
    pub serial: Option<String>,
    pub host_pci_address: String,
    pub vendor_id_hex: String,
    /// Whether its silicon encodes AV1.
    pub av1_encode: bool,
}

/// Whether a device is the one a request names: the vendor's, and the one
/// with the requested index if an index is requested.
pub open spec fn device_matches(d: GpuDevice, vendor: GpuVendor, requested: Option<u32>) -> bool {
    &&& d.vendor == vendor
    &&& requested matches Some(idx) ==> d.index == idx
}

/// Position of the first device that matches, if one does.
pub open spec fn first_match(
    gpus: Seq<GpuDevice>,
    vendor: GpuVendor,
    requested: Option<u32>,
    pick: Option<int>,
) -> bool {
    match pick {
        Some(i) => {
            &&& 0 <= i < gpus.len()
            &&& device_matches(gpus[i], vendor, requested)
            &&& forall|j: int|
                0 <= j < i ==> !device_matches(#[trigger] gpus[j], vendor, requested)
        },
        None => forall|j: int|
            0 <= j < gpus.len() ==> !device_matches(#[trigger] gpus[j], vendor, requested),
    }
}

/// The position of the device that a request picks.
pub open spec fn picked(
    gpus: Seq<GpuDevice>,
    vendor: GpuVendor,
    requested: Option<u32>,
) -> Option<int>
    decreases gpus.len(),
{
    if gpus.len() == 0 {
        None
    } else {
        match picked(gpus.drop_last(), vendor, requested) {
            Some(i) => Some(i),
            None => if device_matches(gpus.last(), vendor, requested) {
                Some(gpus.len() - 1)
            } else {
                None
            },
        }
    }
}

/// The picked device is the first that matches.
pub proof fn picked_is_first(gpus: Seq<GpuDevice>, vendor: GpuVendor, requested: Option<u32>)
    ensures
        first_match(gpus, vendor, requested, picked(gpus, vendor, requested)),
    decreases gpus.len(),
{
    if gpus.len() > 0 {
        let init = gpus.drop_last();
        picked_is_first(init, vendor, requested);
        assert forall|j: int| 0 <= j < init.len() implies gpus[j] == init[j] by {}
        match picked(init, vendor, requested) {
            Some(i) => {
                assert forall|j: int| 0 <= j < i implies !device_matches(
                    #[trigger] gpus[j],
                    vendor,
                    requested,
                ) by {
                    assert(!device_matches(init[j], vendor, requested));
                }
            },
            None => {
                assert forall|j: int| 0 <= j < gpus.len() - 1 implies !device_matches(
                    #[trigger] gpus[j],
                    vendor,
                    requested,
                ) by {
                    assert(!device_matches(init[j], vendor, requested));
                }
            },
        }
    }
}

/// The position of the device a vendor's backend runs on.
pub fn pick_position(
    gpus: &[GpuDevice],
    vendor: GpuVendor,
    requested: Option<u32>,
) -> (pick: Option<usize>)
    ensures
        first_match(
            gpus@,
            vendor,
            requested,
            match pick {
                Some(i) => Some(i as int),
                None => None,
            },
        ),
        picked(gpus@, vendor, requested) == (match pick {
            Some(i) => Some(i as int),
            None => None::<int>,
        }),
{
    proof {
        picked_is_first(gpus@, vendor, requested);
    }
    let mut i: usize = 0;
    while i < gpus.len()
        invariant
            i <= gpus@.len(),
            first_match(gpus@, vendor, requested, picked(gpus@, vendor, requested)),
            forall|j: int|
                0 <= j < i ==> !device_matches(#[trigger] gpus@[j], vendor, requested),
        decreases gpus@.len() - i,
    {
        let wanted: bool = match requested {
            Some(idx) => gpus[i].index == idx,
            None => true,
        };
        if wanted && gpus[i].vendor == vendor {
            proof {
                the_pick_is_unique(
                    gpus@,
                    vendor,
                    requested,
                    Some(i as int),
                    picked(gpus@, vendor, requested),
                );
            }
            return Some(i);
        }
        i = i + 1;
    }
    proof {
        the_pick_is_unique(gpus@, vendor, requested, None, picked(gpus@, vendor, requested));
    }
    None
}

/// The device a vendor's backend runs on: the vendor's first, or the one with
/// the requested index if it is that vendor's.
pub fn pick_vendor_device<'a>(
    gpus: &'a [GpuDevice],
    vendor: GpuVendor,
    requested: Option<u32>,
) -> (pick: Option<&'a GpuDevice>)
    ensures
        match picked(gpus@, vendor, requested) {
            Some(i) => pick == Some(&gpus@[i]),
            None => pick is None,
        },
        pick matches Some(d) ==> device_matches(*d, vendor, requested),
        pick is None ==> forall|j: int|
            0 <= j < gpus@.len() ==> !device_matches(#[trigger] gpus@[j], vendor, requested),
{
    match pick_position(gpus, vendor, requested) {
        Some(i) => Some(&gpus[i]),
        None => None,
    }
}

/// A request picks at most one device: two answers that both satisfy the rule
/// are the same answer.
pub proof fn the_pick_is_unique(
    gpus: Seq<GpuDevice>,
    vendor: GpuVendor,
    requested: Option<u32>,
    a: Option<int>,
    b: Option<int>,
)
    requires
        first_match(gpus, vendor, requested, a),
        first_match(gpus, vendor, requested, b),
    ensures
        a == b,
{
}

/// An index that belongs to another vendor picks nothing for this one, where
/// indices are unique; the other vendor's own search finds the device.
pub proof fn a_foreign_index_is_left_to_its_vendor(
    gpus: Seq<GpuDevice>,
    vendor: GpuVendor,
    i: int,
    pick: Option<int>,
)
    requires
        0 <= i < gpus.len(),
        gpus[i].vendor != vendor,
        forall|j: int| 0 <= j < gpus.len() && j != i ==> (#[trigger] gpus[j]).index != gpus[i].index,
        first_match(gpus, vendor, Some(gpus[i].index), pick),
    ensures
        pick == None::<int>,
        first_match(gpus, gpus[i].vendor, Some(gpus[i].index), Some(i)),
{
}

/// How many of the first `n` devices are a vendor's.
pub open spec fn vendor_count(gpus: Seq<GpuDevice>, vendor: GpuVendor, n: int) -> int
    decreases n,
{
    if n <= 0 {
        0
    } else {
        vendor_count(gpus, vendor, n - 1) + (if gpus[n - 1].vendor == vendor {
            1int
        } else {
            0
        })
    }
}

/// Position of the first device with an index.
pub open spec fn is_position_of(gpus: Seq<GpuDevice>, index: u32, i: int) -> bool {
    &&& 0 <= i < gpus.len()
    &&& gpus[i].index == index
    &&& forall|j: int| 0 <= j < i ==> (#[trigger] gpus[j]).index != index
}

/// The ordinal of a device among its vendor's: what an interface that lists
/// one vendor's adapters counts by.
pub fn vendor_index_of(gpus: &[GpuDevice], index: u32) -> (r: Option<u32>)
    requires
        gpus@.len() <= u32::MAX,
    ensures
        match r {
            Some(n) => exists|i: int| #[trigger]
                is_position_of(gpus@, index, i) && n == vendor_count(gpus@, gpus@[i].vendor, i),
            None => forall|j: int|
                0 <= j < gpus@.len() ==> (#[trigger] gpus@[j]).index != index,
        },
{
    let mut i: usize = 0;
    while i < gpus.len()
        invariant
            i <= gpus@.len() <= u32::MAX,
            forall|j: int| 0 <= j < i ==> (#[trigger] gpus@[j]).index != index,
        decreases gpus@.len() - i,
    {
        if gpus[i].index == index {
            let vendor: GpuVendor = gpus[i].vendor;
            let mut n: u32 = 0;
            let mut k: usize = 0;
            while k < i
                invariant
                    k <= i < gpus@.len() <= u32::MAX,
                    n <= k,
                    n == vendor_count(gpus@, vendor, k as int),
                decreases i - k,
            {
                if gpus[k].vendor == vendor {
                    n = n + 1;
                }
                k = k + 1;
            }
            assert(is_position_of(gpus@, index, i as int));
            return Some(n);
        }
        i = i + 1;
    }
    None
}

/// A device's ordinal counts the vendor's devices before it: the first has zero,
/// devices of other vendors count for nothing, and no two devices of one vendor
/// share an ordinal.
pub proof fn ordinals_tell_a_vendors_devices_apart(
    gpus: Seq<GpuDevice>,
    vendor: GpuVendor,
    i: int,
    j: int,
)
    requires
        0 <= i < j < gpus.len(),
    ensures
        vendor_count(gpus, vendor, 0) == 0,
        0 <= vendor_count(gpus, vendor, i) <= vendor_count(gpus, vendor, j) <= j,
        gpus[i].vendor == vendor ==> vendor_count(gpus, vendor, i) < vendor_count(gpus, vendor, j),
        (forall|k: int| i <= k < j ==> (#[trigger] gpus[k]).vendor != vendor) ==> vendor_count(
            gpus,
            vendor,
            i,
        ) == vendor_count(gpus, vendor, j),
    decreases j,
{
    counts_start_at_zero(gpus, vendor, i);
    if i + 1 < j {
        ordinals_tell_a_vendors_devices_apart(gpus, vendor, i, j - 1);
    }
}

proof fn counts_start_at_zero(gpus: Seq<GpuDevice>, vendor: GpuVendor, n: int)
    requires
        0 <= n,
    ensures
        0 <= vendor_count(gpus, vendor, n) <= n,
    decreases n,
{
    if n > 0 {
        counts_start_at_zero(gpus, vendor, n - 1);
    }
}

/// A request picks the vendor's first device, or its first with the requested
/// index; it picks none exactly where the vendor has no such device.
pub proof fn the_pick_is_the_vendors_first(
    gpus: Seq<GpuDevice>,
    vendor: GpuVendor,
    requested: Option<u32>,
)
    ensures
        match picked(gpus, vendor, requested) {
            Some(i) => {
                &&& 0 <= i < gpus.len()
                &&& gpus[i].vendor == vendor
                &&& requested is Some ==> gpus[i].index == requested->0
                &&& forall|j: int|
                    0 <= j < i && (#[trigger] gpus[j]).vendor == vendor ==> requested is Some
                        && gpus[j].index != requested->0
            },
            None => forall|j: int|
                0 <= j < gpus.len() && (#[trigger] gpus[j]).vendor == vendor ==> requested is Some
                    && gpus[j].index != requested->0,
        },
{
    picked_is_first(gpus, vendor, requested);
    let end = match picked(gpus, vendor, requested) {
        Some(i) => i,
        None => gpus.len() as int,
    };
    assert forall|j: int| 0 <= j < end && (#[trigger] gpus[j]).vendor == vendor implies requested
        is Some && gpus[j].index != requested->0 by {
        assert(!device_matches(gpus[j], vendor, requested));
    }
}

/// An index that some device has, has a first place in the list, and only one.
pub proof fn an_index_has_a_first_place(gpus: Seq<GpuDevice>, index: u32, j: int)
    requires
        0 <= j < gpus.len(),
        gpus[j].index == index,
    ensures
        exists|i: int| #[trigger] is_position_of(gpus, index, i) && i <= j,
        forall|a: int, b: int|
            #[trigger] is_position_of(gpus, index, a) && #[trigger] is_position_of(gpus, index, b)
                ==> a == b,
    decreases j,
{
    if exists|k: int| 0 <= k < j && (#[trigger] gpus[k]).index == index {
        let k = choose|k: int| 0 <= k < j && (#[trigger] gpus[k]).index == index;
        an_index_has_a_first_place(gpus, index, k);
    } else {
        assert(is_position_of(gpus, index, j));
    }
    assert forall|a: int, b: int|
        #[trigger] is_position_of(gpus, index, a) && #[trigger] is_position_of(gpus, index, b)
        implies a == b by {
        if a < b {
            assert(gpus[a].index == index);
        } else if b < a {
            assert(gpus[b].index == index);
        }
    }
}

/// The place of an index is the first device that has it.
pub proof fn the_place_is_the_first(gpus: Seq<GpuDevice>, index: u32, i: int)
    ensures
        is_position_of(gpus, index, i) <==> 0 <= i < gpus.len() && gpus[i].index == index && (
        forall|j: int| 0 <= j < i ==> (#[trigger] gpus[j]).index != index),
{
}

} // verus!
