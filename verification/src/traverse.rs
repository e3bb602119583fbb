use vstd::prelude::*;
use crate::glyphs::ContourShape;
use crate::glyphs::glyph_is_eligible;
use crate::glyphs::has_open_contour;

verus! {

/// One glyph of a layer, as the traverser sees it: its name and the shape
/// of each of its contours, in layer order.
#[derive(Clone, Debug)]
pub struct LayerEntry {
    pub name: String,
    pub contours: Vec<ContourShape>,
}

pub open spec fn entry_eligible(e: LayerEntry) -> bool {
    glyph_is_eligible(e.contours@)
}

/// Decides which glyphs one run transforms: the positions, in layer order,
/// of exactly those glyphs that have at least one open contour. Every other
/// glyph is skipped entirely: not read, not rewritten, not reported.
pub fn plan_traversal(entries: &Vec<LayerEntry>) -> (plan: Vec<usize>)
    ensures
        forall|j: int|
            0 <= j < plan@.len() ==> plan@[j] < entries@.len() && entry_eligible(
                entries@[plan@[j] as int],
            ),
        forall|j1: int, j2: int| 0 <= j1 < j2 < plan@.len() ==> plan@[j1] < plan@[j2],
        forall|i: int|
            0 <= i < entries@.len() && entry_eligible(entries@[i]) ==> plan@.contains(i as usize),
{
    let mut plan: Vec<usize> = Vec::new();
    let mut i: usize = 0;
    while i < entries.len()
        invariant
            0 <= i <= entries@.len(),
            forall|j: int|
                0 <= j < plan@.len() ==> plan@[j] < i && entry_eligible(
                    entries@[plan@[j] as int],
                ),
            forall|j1: int, j2: int| 0 <= j1 < j2 < plan@.len() ==> plan@[j1] < plan@[j2],
            forall|k: int|
                0 <= k < i && entry_eligible(entries@[k]) ==> plan@.contains(k as usize),
        decreases entries@.len() - i,
    {
        if has_open_contour(&entries[i].contours) {
            let ghost prior = plan@;
            plan.push(i);
            proof {
                assert(plan@[plan@.len() - 1] == i);
                assert forall|k: int|
                    0 <= k < i + 1 && entry_eligible(entries@[k]) implies plan@.contains(
                    k as usize,
                ) by {
                    if k < i {
                        let j = choose|j: int| 0 <= j < prior.len() && prior[j] == k as usize;
                        assert(plan@[j] == k as usize);
                    } else {
                        assert(plan@[plan@.len() - 1] == i as usize);
                    }
                }
            }
        }
        i = i + 1;
    }
    plan
}

/// A glyph none of whose contours is open is left alone by the run: its
/// position never appears in any plan whose members are all eligible, so it
/// is neither read nor rewritten, and no transformation is reported for it.
pub proof fn lemma_closed_glyph_not_planned(entries: Seq<LayerEntry>, plan: Seq<usize>, i: int)
    requires
        forall|j: int|
            0 <= j < plan.len() ==> plan[j] < entries.len() && entry_eligible(
                entries[plan[j] as int],
            ),
        entries.len() <= usize::MAX,
        0 <= i < entries.len(),
        !entry_eligible(entries[i]),
    ensures
        !plan.contains(i as usize),
{
    if plan.contains(i as usize) {
        let j = choose|j: int| 0 <= j < plan.len() && plan[j] == i as usize;
        assert(plan[j] == i as usize);
        assert(entry_eligible(entries[plan[j] as int]));
        assert(plan[j] as int == i);
    }
}

} // verus!
