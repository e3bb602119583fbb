use vstd::prelude::*;

verus! {

/// The type of one point of a contour.
#[derive(Clone, Copy, PartialEq, Eq, Structural, Debug)]
pub enum PointKind {
    Move,
    Line,
    OffCurve,
    Curve,
    QCurve,
}

/// The shape of one contour: the types of its points, in order. The
/// coordinates play no part in eligibility, so they are not carried here.
#[derive(Clone, Debug)]
pub struct ContourShape {
    pub kinds: Vec<PointKind>,
}

/// A contour is open exactly when its first point is a move.
pub open spec fn contour_is_open(c: ContourShape) -> bool {
    c.kinds@.len() > 0 && c.kinds@[0] == PointKind::Move
}

pub fn is_open_contour(c: &ContourShape) -> (r: bool)
    ensures
        r == contour_is_open(*c),
{
    if c.kinds.len() > 0 {
        c.kinds[0] == PointKind::Move
    } else {
        false
    }
}

/// A glyph is eligible for transformation exactly when at least one of its
/// contours is open.
pub open spec fn glyph_is_eligible(cs: Seq<ContourShape>) -> bool {
    exists|i: int| 0 <= i < cs.len() && contour_is_open(cs[i])
}

pub fn has_open_contour(cs: &Vec<ContourShape>) -> (r: bool)
    ensures
        r == glyph_is_eligible(cs@),
{
    let mut i: usize = 0;
    while i < cs.len()
        invariant
            0 <= i <= cs@.len(),
            forall|k: int| 0 <= k < i ==> !contour_is_open(cs@[k]),
        decreases cs@.len() - i,
    {
        if is_open_contour(&cs[i]) {
            return true;
        }
        i = i + 1;
    }
    false
}

} // verus!
