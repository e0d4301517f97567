//! Logical device planning: selecting the physical device, turning the
//! queue-family selector's requirements into per-family queue counts,
//! enabling the required device extensions, and the model of the created
//! device that later resources are scoped to.

use vstd::prelude::*;

use crate::capability::has_name;
use crate::device_extensions::DeviceExtensionManager;
use crate::physical_device::{
    PhysicalDeviceChoiceError, PhysicalDeviceInfo, inspect_prefix, required_device_extensions,
    select_physical_device, spec_required_device_extensions, spec_suitable,
};
use crate::queues::{
    FamilyQueues, QueueFamilyProperties, QueueFamilyRequirement, QueueFamilySelector,
    check_queue_requirements, plan_queue_counts, reqs_views, valid_queue_requirements,
};

verus! {

/// A created logical device: it remembers how many queues were made from
/// each queue family, so later allocations can be checked against them.
#[derive(Debug, Clone, PartialEq, Eq)]
pub struct Device {
    pub queue_counts: Vec<usize>,
}

impl Device {
    pub fn new(queue_counts: Vec<usize>) -> (r: Self)
        ensures
            r.queue_counts@ == queue_counts@,
    {
        Device { queue_counts }
    }

    pub fn get_queue_family_count(&self) -> (r: usize)
        ensures
            r == self.queue_counts@.len(),
    {
        self.queue_counts.len()
    }

    pub fn get_queue_counts(&self) -> (r: Vec<usize>)
        ensures
            r@ == self.queue_counts@,
    {
        let r = self.queue_counts.clone();
        proof {
            assert(r@ =~= self.queue_counts@);
        }
        r
    }
}

/// Why building a device failed.
#[derive(Debug, Clone, Copy, PartialEq, Eq, Structural)]
pub enum DeviceBuildError {
    /// Physical device selection failed.
    Choice(PhysicalDeviceChoiceError),
    /// The selector asked for queues the chosen device cannot provide: a
    /// family out of range, a family named twice, or more queues than the
    /// family offers.
    InvalidQueueRequirements,
}

/// Everything the driver needs to create the logical device: the chosen
/// device, the queue requests, the per-family queue counts, the extension
/// names to enable, and the completed selector that will type the queues.
#[derive(Debug, Clone, PartialEq, Eq)]
pub struct DevicePlan<S: QueueFamilySelector> {
    pub device_index: usize,
    pub queue_family_selector: S,
    pub requirements: Vec<QueueFamilyRequirement>,
    pub queue_counts: Vec<usize>,
    pub enabled_extensions: Vec<String>,
}

/// What a successful device plan promises: it names the first suitable
/// device; its selector is the one completed over that device's families;
/// its requirements are that selector's and the device can satisfy them; its
/// queue counts mirror the requirements; and its enabled extension names are
/// exactly the required device extensions, each offered by the device.
pub open spec fn plan_matches<S: QueueFamilySelector>(
    selector0: S,
    devices: Seq<PhysicalDeviceInfo>,
    plan: DevicePlan<S>,
) -> bool {
    let info = devices[plan.device_index as int];
    let selector = inspect_prefix(
        selector0,
        info.queue_families@,
        info.queue_families@.len() as int,
    );
    &&& plan.device_index < devices.len()
    &&& spec_suitable(info, selector0)
    &&& (forall|j: int| 0 <= j < plan.device_index ==> !spec_suitable(devices[j], selector0))
    &&& plan.queue_family_selector == selector
    &&& plan.queue_family_selector.complete()
    &&& reqs_views(plan.requirements@) == selector.spec_requirements()
    &&& valid_queue_requirements(
        reqs_views(plan.requirements@),
        info.queue_families@.map_values(|f: QueueFamilyProperties| f.queue_count),
    )
    &&& plan.queue_counts@.len() == info.queue_families@.len()
    &&& (forall|k: int|
        0 <= k < plan.requirements@.len()
            ==> plan.queue_counts@[plan.requirements@[k].family_index as int]
            == plan.requirements@[k].priorities@.len())
    &&& (forall|f: int|
        0 <= f < plan.queue_counts@.len() && (forall|k: int|
            0 <= k < plan.requirements@.len() ==> plan.requirements@[k].family_index != f)
            ==> plan.queue_counts@[f] == 0)
    &&& (forall|i: int|
        0 <= i < spec_required_device_extensions().len() ==> crate::capability::str_views(
            plan.enabled_extensions@,
        ).contains(spec_required_device_extensions()[i]))
    &&& (forall|n: Seq<char>|
        crate::capability::str_views(plan.enabled_extensions@).contains(n) ==> has_name(
            info.available_extensions@,
            n,
        ) && (exists|i: int|
            0 <= i < spec_required_device_extensions().len()
                && spec_required_device_extensions()[i] == n))
}

/// Whether `idx` names the first suitable device of the enumeration.
pub open spec fn spec_first_suitable_at<S: QueueFamilySelector>(
    selector0: S,
    devices: Seq<PhysicalDeviceInfo>,
    idx: int,
) -> bool {
    &&& 0 <= idx < devices.len()
    &&& spec_suitable(devices[idx], selector0)
    &&& forall|j: int| 0 <= j < idx ==> !spec_suitable(devices[j], selector0)
}

/// Whether the first suitable device at `idx` can satisfy the completed
/// selector's queue requirements.
pub open spec fn spec_buildable_at<S: QueueFamilySelector>(
    selector0: S,
    devices: Seq<PhysicalDeviceInfo>,
    idx: int,
) -> bool {
    &&& spec_first_suitable_at(selector0, devices, idx)
    &&& valid_queue_requirements(
        inspect_prefix(
            selector0,
            devices[idx].queue_families@,
            devices[idx].queue_families@.len() as int,
        ).spec_requirements(),
        devices[idx].queue_families@.map_values(|f: QueueFamilyProperties| f.queue_count),
    )
}

/// Whether building succeeds at all: a suitable device exists, and the first
/// suitable one can satisfy the selector's queue requirements.
pub open spec fn spec_buildable<S: QueueFamilySelector>(
    selector0: S,
    devices: Seq<PhysicalDeviceInfo>,
) -> bool {
    exists|idx: int| spec_buildable_at(selector0, devices, idx)
}

/// The first suitable device is unique.
proof fn lemma_first_suitable_unique<S: QueueFamilySelector>(
    selector0: S,
    devices: Seq<PhysicalDeviceInfo>,
    a: int,
    b: int,
)
    requires
        spec_first_suitable_at(selector0, devices, a),
        spec_first_suitable_at(selector0, devices, b),
    ensures
        a == b,
{
    if a < b {
        assert(!spec_suitable(devices[a], selector0));
    } else if b < a {
        assert(!spec_suitable(devices[b], selector0));
    }
}

/// Builds the plan for one logical device from a queue-family selector.
pub struct DeviceBuilder<S: QueueFamilySelector> {
    pub queue_family_selector: S,
}

impl<S: QueueFamilySelector> DeviceBuilder<S> {
    pub fn new(queue_family_selector: S) -> (r: Self)
        ensures
            r.queue_family_selector == queue_family_selector,
    {
        DeviceBuilder { queue_family_selector }
    }

    /// Selects the physical device, checks the selector's queue requirements
    /// against it, plans the per-family queue counts, and enables the
    /// required device extensions. The plan names the first suitable device;
    /// selection failures and unsatisfiable queue requirements are reported
    /// as errors.
    #[verifier::rlimit(50)]
    pub fn build(self, devices: &Vec<PhysicalDeviceInfo>) -> (r: Result<
        DevicePlan<S>,
        DeviceBuildError,
    >)
        requires
            forall|i: int| 0 <= i < devices@.len() ==> devices@[i].wf(),
        ensures
            devices@.len() == 0 ==> r == Err::<DevicePlan<S>, DeviceBuildError>(
                DeviceBuildError::Choice(PhysicalDeviceChoiceError::DeviceNotFound),
            ),
            (devices@.len() > 0 && (forall|i: int|
                0 <= i < devices@.len() ==> !spec_suitable(
                    devices@[i],
                    self.queue_family_selector,
                ))) ==> r == Err::<DevicePlan<S>, DeviceBuildError>(
                DeviceBuildError::Choice(PhysicalDeviceChoiceError::SuitableDeviceNotFound),
            ),
            r is Ok <==> spec_buildable(self.queue_family_selector, devices@),
            r is Ok ==> plan_matches(self.queue_family_selector, devices@, r->Ok_0),
            ((exists|i: int|
                0 <= i < devices@.len() && spec_suitable(devices@[i], self.queue_family_selector))
                && !spec_buildable(self.queue_family_selector, devices@)) ==> r == Err::<
                DevicePlan<S>,
                DeviceBuildError,
            >(DeviceBuildError::InvalidQueueRequirements),
    {
        let ghost selector0 = self.queue_family_selector;
        let choice = match select_physical_device(devices, self.queue_family_selector) {
            Ok(c) => c,
            Err(e) => {
                proof {
                    assert(!spec_buildable(selector0, devices@)) by {
                        if spec_buildable(selector0, devices@) {
                            let idx = choose|idx: int| spec_buildable_at(selector0, devices@, idx);
                            assert(spec_suitable(devices@[idx], selector0));
                        }
                    }
                }
                return Err(DeviceBuildError::Choice(e));
            },
        };
        let ghost chosen = choice.device_index as int;

        let requirements = choice.queue_family_selector.requirements();
        if !check_queue_requirements(&requirements, &choice.queue_counts) {
            proof {
                assert(!spec_buildable(selector0, devices@)) by {
                    if spec_buildable(selector0, devices@) {
                        let idx = choose|idx: int| spec_buildable_at(selector0, devices@, idx);
                        lemma_first_suitable_unique(selector0, devices@, idx, chosen);
                        assert(!valid_queue_requirements(
                            reqs_views(requirements@),
                            choice.queue_counts@,
                        ));
                    }
                }
            }
            return Err(DeviceBuildError::InvalidQueueRequirements);
        }
        proof {
            assert(spec_buildable_at(selector0, devices@, chosen));
        }
        let queue_counts = plan_queue_counts(&requirements, &choice.queue_counts);

        let info = devices.get(choice.device_index).unwrap();
        let available = info.available_extensions.clone();
        proof {
            assert(available@ =~= info.available_extensions@);
        }
        let mut extension_manager = DeviceExtensionManager::init(available);
        let ghost pre_caps = extension_manager.caps.available@;
        proof {
            assert forall|k: int| 0 <= k < pre_caps.len() implies !pre_caps[k].enabled by {
                if pre_caps[k].enabled {
                    crate::capability::lemma_enabled_names_membership(
                        pre_caps,
                        pre_caps[k].name@,
                    );
                    assert(crate::capability::enabled_names(pre_caps).contains(
                        pre_caps[k].name@,
                    ));
                }
            }
        }
        let required = required_device_extensions();
        let enabled_extensions = match extension_manager.add_extensions(&required) {
            Ok(()) => extension_manager.list_names(),
            Err(_) => {
                proof {
                    assert(false);
                }
                return Err(DeviceBuildError::InvalidQueueRequirements);
            },
        };
        proof {
            let caps = extension_manager.caps.available@;
            assert forall|i: int|
                0 <= i < spec_required_device_extensions().len() implies crate::capability::str_views(
                enabled_extensions@,
            ).contains(spec_required_device_extensions()[i]) by {
                let n = spec_required_device_extensions()[i];
                assert(required@[i]@ == n);
                assert(has_name(info.available_extensions@, n));
                crate::capability::lemma_enabled_names_membership(caps, n);
                let w = choose|w: int| 0 <= w < caps.len() && caps[w].name@ == n;
                assert(caps[w].enabled);
            }
            assert forall|n: Seq<char>|
                crate::capability::str_views(enabled_extensions@).contains(n) implies has_name(
                info.available_extensions@,
                n,
            ) && (exists|i: int|
                0 <= i < spec_required_device_extensions().len()
                    && spec_required_device_extensions()[i] == n) by {
                crate::capability::lemma_enabled_names_membership(caps, n);
                let k = choose|k: int| 0 <= k < caps.len() && caps[k].enabled && caps[k].name@ == n;
                assert(has_name(required@, n));
                let i = choose|i: int| 0 <= i < required@.len() && required@[i]@ == n;
                assert(spec_required_device_extensions()[i] == n);
            }
        }

        proof {
            assert(choice.queue_counts@.len() == info.queue_families@.len());
            assert(queue_counts@.len() == info.queue_families@.len());
            assert(forall|k: int|
                0 <= k < requirements@.len() ==> queue_counts@[requirements@[k].family_index as int]
                    == requirements@[k].priorities@.len());
            assert(forall|f: int|
                0 <= f < queue_counts@.len() && (forall|k: int|
                    0 <= k < requirements@.len() ==> requirements@[k].family_index != f)
                    ==> queue_counts@[f] == 0);
        }
        let plan = DevicePlan {
            device_index: choice.device_index,
            queue_family_selector: choice.queue_family_selector,
            requirements,
            queue_counts,
            enabled_extensions,
        };
        proof {
            assert(plan_matches(self.queue_family_selector, devices@, plan));
        }
        Ok(plan)
    }
}

/// Fills a selector's typed queue set from the queues the driver returned,
/// created on the given device family by family. The selector must be
/// complete, its requirements must name only families the device made queues
/// for, and the returned queues must cover them; asking otherwise is a logic
/// error in the selection pipeline, not bad input.
pub fn fill_selector<S: QueueFamilySelector>(
    device: &Device,
    selector: &S,
    queues_raw: &Vec<FamilyQueues>,
) -> (r: S::Q)
    requires
        selector.complete(),
        forall|k: int|
            0 <= k < selector.spec_requirements().len() ==> selector.spec_requirements()[k].0
                < device.queue_counts@.len() && selector.spec_requirements()[k].1.len()
                <= device.queue_counts@[selector.spec_requirements()[k].0 as int],
        selector.can_fill(queues_raw@),
    ensures
        r == selector.spec_fill(queues_raw@),
{
    selector.fill_queues(queues_raw)
}

} // verus!
