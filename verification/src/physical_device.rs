//! Physical device rating and selection: every visible device is rated, and
//! the first device with the maximum rating wins. A device rates 1 when it is
//! a discrete or integrated GPU, offers every required extension and feature
//! flag, and its queue families complete the queue-family selector; it rates
//! 0 otherwise.

use vstd::prelude::*;

use crate::capability::has_name;
use crate::device_extensions;
use crate::features::FeaturesInfo;
use crate::queues::{QueueFamilyProperties, QueueFamilySelector};

verus! {

/// The kind of device the driver reports.
#[derive(Debug, Clone, Copy, PartialEq, Eq, Structural)]
pub enum PhysicalDeviceType {
    DiscreteGpu,
    IntegratedGpu,
    VirtualGpu,
    Cpu,
    Other,
}

/// Everything the selector reads about one candidate device: its kind, its
/// feature flags, the extension names it offers, and its queue families.
#[derive(Debug, Clone, PartialEq, Eq)]
pub struct PhysicalDeviceInfo {
    pub device_type: PhysicalDeviceType,
    pub features: FeaturesInfo,
    pub available_extensions: Vec<String>,
    pub queue_families: Vec<QueueFamilyProperties>,
}

impl PhysicalDeviceInfo {
    pub open spec fn wf(self) -> bool {
        self.features.wf() && self.queue_families@.len() <= u32::MAX
    }
}

/// The device extensions every rendering device must offer.
pub open spec fn spec_required_device_extensions() -> Seq<Seq<char>> {
    seq!["VK_KHR_swapchain"@, "VK_KHR_vulkan_memory_model"@]
}

/// The device extensions every rendering device must offer, as owned names.
pub fn required_device_extensions() -> (r: Vec<String>)
    ensures
        r@.len() == spec_required_device_extensions().len(),
        forall|i: int| 0 <= i < r@.len() ==> r@[i]@ == spec_required_device_extensions()[i],
{
    let mut r: Vec<String> = Vec::new();
    r.push("VK_KHR_swapchain".to_owned());
    r.push("VK_KHR_vulkan_memory_model".to_owned());
    r
}

/// Whether the device's kind is acceptable: a discrete or integrated GPU.
pub open spec fn spec_type_ok(t: PhysicalDeviceType) -> bool {
    t == PhysicalDeviceType::DiscreteGpu || t == PhysicalDeviceType::IntegratedGpu
}

/// Whether a device offering the extension names `available` has every
/// required device extension.
pub open spec fn spec_extensions_ok(available: Seq<String>) -> bool {
    forall|i: int|
        0 <= i < spec_required_device_extensions().len() ==> has_name(
            available,
            spec_required_device_extensions()[i],
        )
}

/// The selector state after inspecting the first `n` families, in order,
/// each under its index.
pub open spec fn inspect_prefix<S: QueueFamilySelector>(
    s: S,
    families: Seq<QueueFamilyProperties>,
    n: int,
) -> S
    decreases n,
{
    if n <= 0 {
        s
    } else {
        inspect_prefix(s, families, n - 1).spec_inspect((n - 1) as u32, families[n - 1])
    }
}

/// Whether a device is suitable when rated with selector state `s`: kind,
/// extensions and features all pass, and inspecting every family completes
/// the selector.
pub open spec fn spec_suitable<S: QueueFamilySelector>(info: PhysicalDeviceInfo, s: S) -> bool {
    &&& spec_type_ok(info.device_type)
    &&& spec_extensions_ok(info.available_extensions@)
    &&& info.features.meets_required()
    &&& inspect_prefix(s, info.queue_families@, info.queue_families@.len() as int).complete()
}

/// Why selection failed.
#[derive(Debug, Clone, Copy, PartialEq, Eq, Structural)]
pub enum PhysicalDeviceChoiceError {
    /// The driver reported no device at all.
    DeviceNotFound,
    /// Devices exist, but every one was discarded.
    SuitableDeviceNotFound,
}

impl PhysicalDeviceChoiceError {
    pub fn message(&self) -> (r: String)
        ensures
            self is DeviceNotFound ==> r@ == "no physical device found"@,
            self is SuitableDeviceNotFound ==> r@ == "no suitable physical device found"@,
    {
        match self {
            PhysicalDeviceChoiceError::DeviceNotFound => "no physical device found".to_owned(),
            PhysicalDeviceChoiceError::SuitableDeviceNotFound => {
                "no suitable physical device found".to_owned()
            },
        }
    }
}

/// The immutable result of selection: the winning device (by its position in
/// the enumeration), its rating, the selector state accumulated over its
/// queue families, and each family's queue count.
#[derive(Debug, Clone, PartialEq, Eq)]
pub struct PhysicalDeviceChoice<S: QueueFamilySelector> {
    pub rating: i32,
    pub device_index: usize,
    pub queue_family_selector: S,
    pub queue_counts: Vec<u32>,
}

/// Rates one candidate device. The rating is 1 exactly when the device is
/// suitable; any missing requirement rates it 0. A device rejected before
/// its queue families are walked leaves the selector and the queue counts
/// untouched; otherwise the selector has inspected every family and the
/// counts mirror the families.
pub fn rate_physical_device<S: QueueFamilySelector>(
    info: &PhysicalDeviceInfo,
    device_index: usize,
    qfc: S,
) -> (r: PhysicalDeviceChoice<S>)
    requires
        info.wf(),
    ensures
        r.device_index == device_index,
        r.rating == if spec_suitable(*info, qfc) {
            1int
        } else {
            0int
        },
        (spec_type_ok(info.device_type) && spec_extensions_ok(info.available_extensions@)
            && info.features.meets_required()) ==> {
            &&& r.queue_family_selector == inspect_prefix(
                qfc,
                info.queue_families@,
                info.queue_families@.len() as int,
            )
            &&& r.queue_counts@ == info.queue_families@.map_values(
                |f: QueueFamilyProperties| f.queue_count,
            )
        },
        !(spec_type_ok(info.device_type) && spec_extensions_ok(info.available_extensions@)
            && info.features.meets_required()) ==> r.queue_family_selector == qfc
            && r.queue_counts@ == Seq::<u32>::empty(),
{
    let mut qfc = qfc;
    let mut queue_counts: Vec<u32> = Vec::new();

    let type_ok = match info.device_type {
        PhysicalDeviceType::DiscreteGpu => true,
        PhysicalDeviceType::IntegratedGpu => true,
        _ => false,
    };
    if !type_ok {
        return PhysicalDeviceChoice { rating: 0, device_index, queue_family_selector: qfc, queue_counts };
    }

    let required = required_device_extensions();
    if device_extensions::check_extensions(&info.available_extensions, &required).is_err() {
        proof {
            assert(!spec_extensions_ok(info.available_extensions@));
        }
        return PhysicalDeviceChoice { rating: 0, device_index, queue_family_selector: qfc, queue_counts };
    }
    proof {
        assert(spec_extensions_ok(info.available_extensions@)) by {
            assert forall|i: int|
                0 <= i < spec_required_device_extensions().len() implies has_name(
                info.available_extensions@,
                spec_required_device_extensions()[i],
            ) by {
                assert(required@[i]@ == spec_required_device_extensions()[i]);
            }
        }
    }

    if info.features.check_required().is_err() {
        return PhysicalDeviceChoice { rating: 0, device_index, queue_family_selector: qfc, queue_counts };
    }

    let ghost qfc0 = qfc;
    let n = info.queue_families.len();
    let mut i: usize = 0;
    while i < n
        invariant
            info.wf(),
            n == info.queue_families@.len(),
            i <= n,
            qfc == inspect_prefix(qfc0, info.queue_families@, i as int),
            queue_counts@ == info.queue_families@.take(i as int).map_values(
                |f: QueueFamilyProperties| f.queue_count,
            ),
        decreases n - i,
    {
        let properties = info.queue_families.get(i).unwrap();
        queue_counts.push(properties.queue_count);
        qfc.inspect_queue_family(i as u32, properties);
        proof {
            assert(info.queue_families@.take(i as int + 1) =~= info.queue_families@.take(
                i as int,
            ).push(info.queue_families@[i as int]));
            assert(info.queue_families@.take(i as int + 1).map_values(
                |f: QueueFamilyProperties| f.queue_count,
            ) =~= info.queue_families@.take(i as int).map_values(
                |f: QueueFamilyProperties| f.queue_count,
            ).push(properties.queue_count));
        }
        i = i + 1;
    }
    proof {
        assert(info.queue_families@.take(n as int) =~= info.queue_families@);
        assert(queue_counts@ =~= info.queue_families@.map_values(
            |f: QueueFamilyProperties| f.queue_count,
        ));
    }

    if !qfc.is_complete() {
        return PhysicalDeviceChoice { rating: 0, device_index, queue_family_selector: qfc, queue_counts };
    }

    PhysicalDeviceChoice { rating: 1, device_index, queue_family_selector: qfc, queue_counts }
}

/// Selects the device the renderer will use: every visible device is rated
/// from the same starting selector state, and the first device with the
/// maximum rating wins. Fails with `DeviceNotFound` when no device is
/// visible, and with `SuitableDeviceNotFound` when none rates above 0. On
/// success the winner rates 1, no earlier device does, and its selector is
/// complete.
pub fn select_physical_device<S: QueueFamilySelector>(
    devices: &Vec<PhysicalDeviceInfo>,
    queue_family_selector: S,
) -> (r: Result<PhysicalDeviceChoice<S>, PhysicalDeviceChoiceError>)
    requires
        forall|i: int| 0 <= i < devices@.len() ==> devices@[i].wf(),
    ensures
        r is Ok <==> exists|i: int|
            0 <= i < devices@.len() && spec_suitable(devices@[i], queue_family_selector),
        devices@.len() == 0 ==> r == Err::<PhysicalDeviceChoice<S>, PhysicalDeviceChoiceError>(
            PhysicalDeviceChoiceError::DeviceNotFound,
        ),
        r is Err && devices@.len() > 0 ==> r == Err::<
            PhysicalDeviceChoice<S>,
            PhysicalDeviceChoiceError,
        >(PhysicalDeviceChoiceError::SuitableDeviceNotFound),
        r is Ok ==> {
            let c = r->Ok_0;
            &&& c.rating == 1
            &&& c.device_index < devices@.len()
            &&& spec_suitable(devices@[c.device_index as int], queue_family_selector)
            &&& forall|j: int|
                0 <= j < c.device_index ==> !spec_suitable(devices@[j], queue_family_selector)
            &&& c.queue_family_selector == inspect_prefix(
                queue_family_selector,
                devices@[c.device_index as int].queue_families@,
                devices@[c.device_index as int].queue_families@.len() as int,
            )
            &&& c.queue_family_selector.complete()
            &&& c.queue_counts@ == devices@[c.device_index as int].queue_families@.map_values(
                |f: QueueFamilyProperties| f.queue_count,
            )
        },
{
    if devices.len() == 0 {
        return Err(PhysicalDeviceChoiceError::DeviceNotFound);
    }
    let mut i: usize = 0;
    while i < devices.len()
        invariant
            i <= devices@.len(),
            forall|k: int| 0 <= k < devices@.len() ==> devices@[k].wf(),
            forall|j: int| 0 <= j < i ==> !spec_suitable(devices@[j], queue_family_selector),
        decreases devices@.len() - i,
    {
        let info = devices.get(i).unwrap();
        let choice = rate_physical_device(info, i, queue_family_selector.clone_selector());
        if choice.rating == 1 {
            return Ok(choice);
        }
        i = i + 1;
    }
    Err(PhysicalDeviceChoiceError::SuitableDeviceNotFound)
}

} // verus!
