//! Queue models and the pluggable queue-family selection capability: a
//! selector inspects each family of a candidate device, says when it has
//! found every family it needs, states its queue requirements, and maps the
//! queues the driver returned back into a typed set.

use vstd::prelude::*;

use crate::command_buffer::{CommandBuffer, CommandBufferState};
use crate::fence::{Fence, FenceState, fence_reset_step};
use crate::semaphore::Semaphore;
use crate::swapchain::Swapchain;

verus! {

/// What one queue family of a physical device offers: how many queues it
/// has, whether it supports graphics work, and whether the bound surface
/// reports presentation support for it.
#[derive(Debug, Clone, Copy, PartialEq, Eq, Structural)]
pub struct QueueFamilyProperties {
    pub queue_count: u32,
    pub supports_graphics: bool,
    pub supports_present: bool,
}

/// One device queue, remembered by its provenance: the family it belongs to
/// and its slot within that family.
#[derive(Debug, Clone, Copy, PartialEq, Eq, Structural)]
pub struct Queue {
    pub family_index: u32,
    pub queue_index: u32,
}

impl Queue {
    pub fn new(family_index: u32, queue_index: u32) -> (r: Self)
        ensures
            r.family_index == family_index,
            r.queue_index == queue_index,
    {
        Queue { family_index, queue_index }
    }
}

/// One submission as the driver receives it: the semaphore handles to wait
/// on and to signal, the stage masks the waits apply to, and whether a fence
/// will signal this submission's completion.
#[derive(Debug, Clone, PartialEq, Eq)]
pub struct SubmitInfo {
    pub wait_semaphores: Vec<u64>,
    pub signal_semaphores: Vec<u64>,
    pub wait_dst_stage_mask: Vec<u32>,
    pub fenced: bool,
}

/// One present request as the driver receives it: which chain image to show
/// and the semaphore handles to wait on first.
#[derive(Debug, Clone, PartialEq, Eq)]
pub struct PresentInfo {
    pub image_index: u32,
    pub wait_semaphores: Vec<u64>,
}

/// The handles of a semaphore list.
pub open spec fn semaphore_handles(semaphores: Seq<Semaphore>) -> Seq<u64> {
    semaphores.map_values(|s: Semaphore| s.handle)
}

fn collect_semaphore_handles(semaphores: &Vec<Semaphore>) -> (r: Vec<u64>)
    ensures
        r@ == semaphore_handles(semaphores@),
{
    let mut out: Vec<u64> = Vec::new();
    let mut i: usize = 0;
    while i < semaphores.len()
        invariant
            i <= semaphores@.len(),
            out@ == semaphore_handles(semaphores@.take(i as int)),
        decreases semaphores@.len() - i,
    {
        let s = semaphores.get(i).unwrap();
        out.push(s.handle);
        proof {
            assert(semaphores@.take(i as int + 1) =~= semaphores@.take(i as int).push(
                semaphores@[i as int],
            ));
            assert(semaphore_handles(semaphores@.take(i as int + 1)) =~= semaphore_handles(
                semaphores@.take(i as int),
            ).push(s.handle));
        }
        i = i + 1;
    }
    proof {
        assert(semaphores@.take(semaphores@.len() as int) =~= semaphores@);
    }
    out
}

impl Queue {
    /// Hands one recorded command buffer to the driver for execution on this
    /// queue, waiting on and signaling the given semaphores. When a fence is
    /// supplied it must be Ready; it is reset before submission so that its
    /// eventual signal reflects this submission's completion.
    pub fn submit_command_buffer(
        &self,
        command_buffer: &CommandBuffer,
        wait: &Vec<Semaphore>,
        signal: &Vec<Semaphore>,
        wait_mask: &Vec<u32>,
        fence: &mut Option<Fence>,
    ) -> (r: SubmitInfo)
        requires
            command_buffer.state == CommandBufferState::Executable,
            (*old(fence)) is Some ==> (*old(fence))->0.state is Ready,
        ensures
            (*old(fence)) is Some ==> (*final(fence)) is Some && fence_reset_step(
                (*old(fence))->0,
                (*final(fence))->0,
            ),
            (*old(fence)) is None ==> (*final(fence)) is None,
            r.fenced == ((*old(fence)) is Some),
            r.wait_semaphores@ == semaphore_handles(wait@),
            r.signal_semaphores@ == semaphore_handles(signal@),
            r.wait_dst_stage_mask@ == wait_mask@,
    {
        let fenced: bool;
        match fence {
            Some(f) => {
                f.reset();
                fenced = true;
            },
            None => {
                fenced = false;
            },
        }
        let wait_semaphores = collect_semaphore_handles(wait);
        let signal_semaphores = collect_semaphore_handles(signal);
        let wait_dst_stage_mask = wait_mask.clone();
        proof {
            assert(wait_dst_stage_mask@ =~= wait_mask@);
        }
        SubmitInfo { wait_semaphores, signal_semaphores, wait_dst_stage_mask, fenced }
    }

    /// Issues one chain image for display, waiting on the given semaphores
    /// first. Fire-and-forget from the caller's perspective.
    pub fn present(&self, swapchain: &Swapchain, index: u32, wait: &Vec<Semaphore>) -> (r:
        PresentInfo)
        requires
            (index as int) < swapchain.image_count,
        ensures
            r.image_index == index,
            r.wait_semaphores@ == semaphore_handles(wait@),
    {
        let wait_semaphores = collect_semaphore_handles(wait);
        PresentInfo { image_index: index, wait_semaphores }
    }
}

/// One queue request: a family and the priority of each queue asked of it.
/// Priorities are stored in thousandths (0 stands for the lowest priority,
/// 1000 for the highest); the layer that talks to the driver converts them
/// to the driver's fractional scale.
#[derive(Debug, Clone, PartialEq, Eq)]
pub struct QueueFamilyRequirement {
    pub family_index: u32,
    pub priorities: Vec<u32>,
}

/// The requirement as a plain value: the family index and the priorities.
pub open spec fn req_view(r: QueueFamilyRequirement) -> (u32, Seq<u32>) {
    (r.family_index, r.priorities@)
}

/// The requirement list as plain values.
pub open spec fn reqs_views(rs: Seq<QueueFamilyRequirement>) -> Seq<(u32, Seq<u32>)> {
    rs.map_values(|r: QueueFamilyRequirement| req_view(r))
}

/// The queues the driver returned for one family.
#[derive(Debug, Clone, PartialEq, Eq)]
pub struct FamilyQueues {
    pub family_index: u32,
    pub queues: Vec<Queue>,
}

/// Whether every queue in every entry carries the entry's family index, as
/// queues fetched family by family from the driver do.
pub open spec fn family_queues_consistent(raw: Seq<FamilyQueues>) -> bool {
    forall|i: int, j: int|
        0 <= i < raw.len() && 0 <= j < raw[i].queues@.len() ==> raw[i].queues@[j].family_index
            == raw[i].family_index
}

/// The first entry for `family`, if any.
pub open spec fn spec_find_family(raw: Seq<FamilyQueues>, family: u32) -> Option<FamilyQueues>
    decreases raw.len(),
{
    if raw.len() == 0 {
        None
    } else if raw[0].family_index == family {
        Some(raw[0])
    } else {
        spec_find_family(raw.drop_first(), family)
    }
}

/// A found entry matches the family asked for.
pub proof fn lemma_find_family_correct(raw: Seq<FamilyQueues>, family: u32)
    requires
        spec_find_family(raw, family) is Some,
    ensures
        spec_find_family(raw, family)->0.family_index == family,
    decreases raw.len(),
{
    if raw.len() > 0 && raw[0].family_index != family {
        lemma_find_family_correct(raw.drop_first(), family);
    }
}

/// Marker for a typed set of queues a selector fills.
pub trait Queues {

}

/// A queue-family selection capability. The physical device selector feeds
/// every family of a candidate device to `inspect_queue_family`; once the
/// selector is complete its `requirements` drive device creation and
/// `fill_queues` maps the created queues back into a typed set.
///
/// `requirements` and `fill_queues` must only be called on a complete
/// selector: asking them of an incomplete one is a logic error in the
/// selection pipeline, not bad input.
pub trait QueueFamilySelector: Sized {
    type Q: Queues;

    /// The selector state after seeing one family.
    spec fn spec_inspect(self, queue_family_id: u32, properties: QueueFamilyProperties) -> Self;

    /// Whether the selector has found every family it needs.
    spec fn complete(&self) -> bool;

    /// The requirements a complete selector asks of device creation, as
    /// plain values.
    spec fn spec_requirements(&self) -> Seq<(u32, Seq<u32>)>;

    /// Whether `raw` holds the queues this selector needs to fill its set.
    spec fn can_fill(&self, raw: Seq<FamilyQueues>) -> bool;

    /// The typed queue set a complete selector builds from `raw`.
    spec fn spec_fill(&self, raw: Seq<FamilyQueues>) -> Self::Q;

    /// A copy of the selector, so each candidate device is rated from the
    /// same starting state.
    fn clone_selector(&self) -> (r: Self)
        ensures
            r == *self,
    ;

    /// Accumulates what one queue family offers.
    fn inspect_queue_family(&mut self, queue_family_id: u32, properties: &QueueFamilyProperties)
        ensures
            *final(self) == old(self).spec_inspect(queue_family_id, *properties),
    ;

    fn is_complete(&self) -> (r: bool)
        ensures
            r == self.complete(),
    ;

    /// One priority list per distinct family index needed.
    fn requirements(&self) -> (r: Vec<QueueFamilyRequirement>)
        requires
            self.complete(),
        ensures
            reqs_views(r@) == self.spec_requirements(),
    ;

    /// Maps the queues the driver returned, family by family, into the typed
    /// set.
    fn fill_queues(&self, queues_raw: &Vec<FamilyQueues>) -> (r: Self::Q)
        requires
            self.complete(),
            self.can_fill(queues_raw@),
        ensures
            r == self.spec_fill(queues_raw@),
    ;
}

/// Whether a requirement list (as plain values) is one the device can
/// satisfy: every family index in range, no family named twice, and no more
/// queues asked of a family than it offers.
pub open spec fn valid_queue_requirements(reqs: Seq<(u32, Seq<u32>)>, queue_counts: Seq<u32>) -> bool {
    &&& forall|i: int| 0 <= i < reqs.len() ==> reqs[i].0 < queue_counts.len()
    &&& forall|i: int, j: int| 0 <= i < j < reqs.len() ==> reqs[i].0 != reqs[j].0
    &&& forall|i: int| 0 <= i < reqs.len() ==> reqs[i].1.len() <= queue_counts[reqs[i].0 as int]
}

/// Decides whether the device whose per-family queue counts are
/// `queue_counts` can satisfy `reqs`.
pub fn check_queue_requirements(reqs: &Vec<QueueFamilyRequirement>, queue_counts: &Vec<u32>) -> (r:
    bool)
    ensures
        r == valid_queue_requirements(reqs_views(reqs@), queue_counts@),
{
    let mut i: usize = 0;
    while i < reqs.len()
        invariant
            i <= reqs@.len(),
            forall|k: int| 0 <= k < i ==> reqs_views(reqs@)[k].0 < queue_counts@.len(),
            forall|k: int, j: int|
                0 <= k < j < i ==> reqs_views(reqs@)[k].0 != reqs_views(reqs@)[j].0,
            forall|k: int|
                0 <= k < i ==> reqs_views(reqs@)[k].1.len() <= queue_counts@[reqs_views(
                    reqs@,
                )[k].0 as int],
        decreases reqs@.len() - i,
    {
        let entry = reqs.get(i).unwrap();
        let family = entry.family_index;
        proof {
            assert(reqs_views(reqs@)[i as int] == req_view(reqs@[i as int]));
        }
        if family as usize >= queue_counts.len() {
            proof {
                assert(!(reqs_views(reqs@)[i as int].0 < queue_counts@.len()));
            }
            return false;
        }
        if entry.priorities.len() > *queue_counts.get(family as usize).unwrap() as usize {
            proof {
                assert(!(reqs_views(reqs@)[i as int].1.len() <= queue_counts@[reqs_views(
                    reqs@,
                )[i as int].0 as int]));
            }
            return false;
        }
        let mut j: usize = 0;
        while j < i
            invariant
                j <= i < reqs@.len(),
                family == reqs@[i as int].family_index,
                forall|k: int| 0 <= k < j ==> reqs_views(reqs@)[k].0 != family,
            decreases i - j,
        {
            if reqs.get(j).unwrap().family_index == family {
                proof {
                    assert(reqs_views(reqs@)[j as int] == req_view(reqs@[j as int]));
                    assert(reqs_views(reqs@)[i as int] == req_view(reqs@[i as int]));
                    assert(reqs_views(reqs@)[j as int].0 == reqs_views(reqs@)[i as int].0);
                }
                return false;
            }
            j = j + 1;
        }
        i = i + 1;
    }
    true
}

/// Plans how many queues device creation asks of each family: the length of
/// the priority list for a family that appears in the requirements, zero for
/// every other family.
pub fn plan_queue_counts(reqs: &Vec<QueueFamilyRequirement>, queue_counts: &Vec<u32>) -> (r: Vec<
    usize,
>)
    requires
        valid_queue_requirements(reqs_views(reqs@), queue_counts@),
    ensures
        r@.len() == queue_counts@.len(),
        forall|k: int|
            0 <= k < reqs@.len() ==> r@[reqs@[k].family_index as int] == reqs@[k].priorities@.len(),
        forall|f: int|
            0 <= f < r@.len() && (forall|k: int|
                0 <= k < reqs@.len() ==> reqs@[k].family_index != f) ==> r@[f] == 0,
{
    let mut planned: Vec<usize> = Vec::new();
    let mut f: usize = 0;
    while f < queue_counts.len()
        invariant
            f <= queue_counts@.len(),
            planned@.len() == f,
            forall|m: int| 0 <= m < f ==> planned@[m] == 0,
        decreases queue_counts@.len() - f,
    {
        planned.push(0);
        f = f + 1;
    }
    let mut i: usize = 0;
    while i < reqs.len()
        invariant
            i <= reqs@.len(),
            valid_queue_requirements(reqs_views(reqs@), queue_counts@),
            planned@.len() == queue_counts@.len(),
            forall|k: int|
                0 <= k < i ==> planned@[reqs@[k].family_index as int]
                    == reqs@[k].priorities@.len(),
            forall|m: int|
                0 <= m < planned@.len() && (forall|k: int|
                    0 <= k < i ==> reqs@[k].family_index != m) ==> planned@[m] == 0,
        decreases reqs@.len() - i,
    {
        let entry = reqs.get(i).unwrap();
        proof {
            assert(reqs_views(reqs@)[i as int].0 == entry.family_index);
        }
        planned.set(entry.family_index as usize, entry.priorities.len());
        proof {
            assert forall|k: int|
                0 <= k < i + 1 implies planned@[reqs@[k].family_index as int]
                == reqs@[k].priorities@.len() by {
                if k < i {
                    assert(reqs_views(reqs@)[k].0 != reqs_views(reqs@)[i as int].0);
                }
            }
        }
        i = i + 1;
    }
    planned
}

} // verus!
