//! The concrete queue-family selector used by the rendering path: it must
//! find a family that supports graphics work and a family that can present
//! to the bound surface (they may be the same family).

use vstd::prelude::*;

use crate::queues::{
    FamilyQueues, Queue, QueueFamilyProperties, QueueFamilyRequirement, QueueFamilySelector,
    Queues, reqs_views, spec_find_family, lemma_find_family_correct, family_queues_consistent,
};
use crate::surface::PhysicalDeviceSurfaceInfo;
use crate::swapchain::{check_surface_info, spec_surface_usable};

verus! {

/// The typed queue set of the rendering path: one graphics queue and one
/// present queue.
#[derive(Debug, Clone, Copy, PartialEq, Eq, Structural)]
pub struct DrawQueues {
    pub graphics: Queue,
    pub present: Queue,
}

impl Queues for DrawQueues {

}

/// Selects a graphics family and a present family for one surface. A family
/// is a present candidate only if the surface reports presentation support
/// for it and the surface has a configuration a swapchain could be built
/// from.
#[derive(Debug, Clone, Copy, PartialEq, Eq)]
pub struct DrawQueueFamilySelector {
    pub surface_usable: bool,
    pub graphics: Option<u32>,
    pub present: Option<u32>,
}

impl DrawQueueFamilySelector {
    /// Starts a selection for the surface whose report is `surface_info`:
    /// nothing found yet, and the surface's usability decided once up front.
    pub fn new(surface_info: &PhysicalDeviceSurfaceInfo) -> (r: Self)
        ensures
            r.graphics is None,
            r.present is None,
            r.surface_usable == spec_surface_usable(*surface_info),
    {
        DrawQueueFamilySelector {
            surface_usable: check_surface_info(surface_info),
            graphics: None,
            present: None,
        }
    }

    /// Whether this family can present: the surface supports it and the
    /// surface is usable at all.
    pub open spec fn spec_present_candidate(self, properties: QueueFamilyProperties) -> bool {
        properties.supports_present && self.surface_usable
    }

    fn filter_present_qf(&self, properties: &QueueFamilyProperties) -> (r: bool)
        ensures
            r == self.spec_present_candidate(*properties),
    {
        properties.supports_present && self.surface_usable
    }

    fn filter_graphic_qf(&self, properties: &QueueFamilyProperties) -> (r: bool)
        ensures
            r == properties.supports_graphics,
    {
        properties.supports_graphics
    }
}

impl QueueFamilySelector for DrawQueueFamilySelector {
    type Q = DrawQueues;

    open spec fn spec_inspect(self, queue_family_id: u32, properties: QueueFamilyProperties) -> Self {
        DrawQueueFamilySelector {
            surface_usable: self.surface_usable,
            graphics: if properties.supports_graphics {
                Some(queue_family_id)
            } else {
                self.graphics
            },
            present: if self.spec_present_candidate(properties) {
                Some(queue_family_id)
            } else {
                self.present
            },
        }
    }

    open spec fn complete(&self) -> bool {
        self.graphics is Some && self.present is Some
    }

    open spec fn spec_requirements(&self) -> Seq<(u32, Seq<u32>)> {
        if self.graphics->0 == self.present->0 {
            seq![(self.graphics->0, seq![0u32])]
        } else {
            seq![(self.graphics->0, seq![0u32]), (self.present->0, seq![0u32])]
        }
    }

    open spec fn can_fill(&self, raw: Seq<FamilyQueues>) -> bool {
        &&& spec_find_family(raw, self.graphics->0) is Some
        &&& spec_find_family(raw, self.graphics->0)->0.queues@.len() > 0
        &&& spec_find_family(raw, self.present->0) is Some
        &&& spec_find_family(raw, self.present->0)->0.queues@.len() > 0
    }

    open spec fn spec_fill(&self, raw: Seq<FamilyQueues>) -> DrawQueues {
        DrawQueues {
            graphics: spec_find_family(raw, self.graphics->0)->0.queues@[0],
            present: spec_find_family(raw, self.present->0)->0.queues@[0],
        }
    }

    fn clone_selector(&self) -> (r: Self) {
        DrawQueueFamilySelector {
            surface_usable: self.surface_usable,
            graphics: self.graphics,
            present: self.present,
        }
    }

    fn inspect_queue_family(&mut self, queue_family_id: u32, properties: &QueueFamilyProperties) {
        if self.filter_graphic_qf(properties) {
            self.graphics = Some(queue_family_id);
        }
        if self.filter_present_qf(properties) {
            self.present = Some(queue_family_id);
        }
    }

    fn is_complete(&self) -> (r: bool) {
        self.graphics.is_some() && self.present.is_some()
    }

    fn requirements(&self) -> (r: Vec<QueueFamilyRequirement>) {
        let g = self.graphics.unwrap();
        let p = self.present.unwrap();
        let mut out: Vec<QueueFamilyRequirement> = Vec::new();
        let mut g_priorities: Vec<u32> = Vec::new();
        g_priorities.push(0);
        out.push(QueueFamilyRequirement { family_index: g, priorities: g_priorities });
        if g != p {
            let mut p_priorities: Vec<u32> = Vec::new();
            p_priorities.push(0);
            out.push(QueueFamilyRequirement { family_index: p, priorities: p_priorities });
            proof {
                assert(reqs_views(out@) =~= self.spec_requirements()) by {
                    assert(reqs_views(out@).len() == 2);
                    assert(reqs_views(out@)[0] == (g, out@[0].priorities@));
                    assert(reqs_views(out@)[1] == (p, out@[1].priorities@));
                    assert(out@[0].priorities@ =~= seq![0u32]);
                    assert(out@[1].priorities@ =~= seq![0u32]);
                }
            }
        } else {
            proof {
                assert(reqs_views(out@) =~= self.spec_requirements()) by {
                    assert(reqs_views(out@).len() == 1);
                    assert(reqs_views(out@)[0] == (g, out@[0].priorities@));
                    assert(out@[0].priorities@ =~= seq![0u32]);
                }
            }
        }
        out
    }

    fn fill_queues(&self, queues_raw: &Vec<FamilyQueues>) -> (r: DrawQueues) {
        let g = self.graphics.unwrap();
        let p = self.present.unwrap();
        let graphics = find_first_queue(queues_raw, g);
        let present = find_first_queue(queues_raw, p);
        DrawQueues { graphics, present }
    }
}

/// The first queue of the first entry for `family`; the entry must exist and
/// hold at least one queue.
fn find_first_queue(queues_raw: &Vec<FamilyQueues>, family: u32) -> (r: Queue)
    requires
        spec_find_family(queues_raw@, family) is Some,
        spec_find_family(queues_raw@, family)->0.queues@.len() > 0,
    ensures
        r == spec_find_family(queues_raw@, family)->0.queues@[0],
{
    let mut i: usize = 0;
    proof {
        assert(queues_raw@.skip(0) =~= queues_raw@);
    }
    while i < queues_raw.len()
        invariant
            i <= queues_raw@.len(),
            spec_find_family(queues_raw@, family) == spec_find_family(
                queues_raw@.skip(i as int),
                family,
            ),
            spec_find_family(queues_raw@, family) is Some,
            spec_find_family(queues_raw@, family)->0.queues@.len() > 0,
        decreases queues_raw@.len() - i,
    {
        let entry = queues_raw.get(i).unwrap();
        if entry.family_index == family {
            return *entry.queues.get(0).unwrap();
        }
        proof {
            assert(queues_raw@.skip(i as int).drop_first() =~= queues_raw@.skip(i as int + 1));
        }
        i = i + 1;
    }
    proof {
        assert(queues_raw@.skip(i as int).len() == 0);
        assert(false);
    }
    unreached()
}

/// For every completed draw-queues selection: the requirement list holds one
/// entry when graphics and present resolved to the same family and two
/// otherwise, each entry asking one queue of its family; and the queues a
/// consistent driver answer fills carry the families the selection chose.
pub proof fn lemma_draw_queues_provenance(s: DrawQueueFamilySelector, raw: Seq<FamilyQueues>)
    requires
        s.complete(),
        s.can_fill(raw),
        family_queues_consistent(raw),
    ensures
        s.spec_requirements().len() == if s.graphics->0 == s.present->0 {
            1int
        } else {
            2int
        },
        s.spec_requirements()[0].0 == s.graphics->0,
        s.graphics->0 != s.present->0 ==> s.spec_requirements()[1].0 == s.present->0,
        forall|k: int|
            0 <= k < s.spec_requirements().len() ==> s.spec_requirements()[k].1 =~= seq![0u32],
        s.spec_fill(raw).graphics.family_index == s.graphics->0,
        s.spec_fill(raw).present.family_index == s.present->0,
{
    let g = s.graphics->0;
    let p = s.present->0;
    lemma_find_family_correct(raw, g);
    lemma_find_family_correct(raw, p);
    lemma_find_family_in(raw, g);
    lemma_find_family_in(raw, p);
}

/// A found entry is one of the entries of the list.
proof fn lemma_find_family_in(raw: Seq<FamilyQueues>, family: u32)
    requires
        spec_find_family(raw, family) is Some,
    ensures
        exists|i: int| 0 <= i < raw.len() && raw[i] == spec_find_family(raw, family)->0,
    decreases raw.len(),
{
    if raw.len() > 0 && raw[0].family_index != family {
        lemma_find_family_in(raw.drop_first(), family);
        let w = choose|i: int|
            0 <= i < raw.drop_first().len() && raw.drop_first()[i] == spec_find_family(
                raw.drop_first(),
                family,
            )->0;
        assert(raw[w + 1] == spec_find_family(raw, family)->0);
    }
}

} // verus!
