use vstd::prelude::*;
use crate::outside::AnchorData;
use crate::outside::GuidelineData;
use crate::outside::OutlineData;
use crate::settings::StrokeSpec;

verus! {

/// How a handle's offsets blend into the next handle's.
#[derive(Clone, Copy, PartialEq, Eq, Structural, Debug)]
pub enum InterpKind {
    Null,
    Linear,
}

/// One stroke handle: the left and right offsets and the tangent offset
/// (IEEE-754 bit patterns), and the interpolation towards the next handle.
#[derive(Clone, Copy, PartialEq, Eq, Structural, Debug)]
pub struct StrokeHandle {
    pub left_bits: u64,
    pub right_bits: u64,
    pub tangent_bits: u64,
    pub interpolation: InterpKind,
}

/// The one handle a uniform-width run uses everywhere: both offsets are the
/// resolved half-width, the tangent offset is the resolved angle, and the
/// interpolation is linear.
pub open spec fn uniform_handle(profile: StrokeSpec) -> StrokeHandle {
    StrokeHandle {
        left_bits: profile.width_bits,
        right_bits: profile.width_bits,
        tangent_bits: profile.angle_bits,
        interpolation: InterpKind::Linear,
    }
}

/// Builds the handle sequence for one contour: one handle per segment
/// boundary, that is the segment count plus one, every one identical and
/// drawn from the resolved profile.
pub fn build_handles(segments: usize, profile: &StrokeSpec) -> (r: Vec<StrokeHandle>)
    requires
        segments < usize::MAX,
    ensures
        r@.len() == segments + 1,
        forall|k: int| 0 <= k < r@.len() ==> r@[k] == uniform_handle(*profile),
{
    let mut handles: Vec<StrokeHandle> = Vec::new();
    let mut count: usize = segments + 1;
    while count > 0
        invariant
            count <= segments + 1,
            handles@.len() == segments + 1 - count,
            forall|k: int| 0 <= k < handles@.len() ==> handles@[k] == uniform_handle(*profile),
        decreases count,
    {
        handles.push(StrokeHandle {
            left_bits: profile.width_bits,
            right_bits: profile.width_bits,
            tangent_bits: profile.angle_bits,
            interpolation: InterpKind::Linear,
        });
        count = count - 1;
    }
    handles
}

/// Builds the handle sequences of a whole glyph, one per contour, from the
/// contours' segment counts.
pub fn stroke_profiles(counts: &Vec<usize>, profile: &StrokeSpec) -> (r: Vec<Vec<StrokeHandle>>)
    requires
        forall|i: int| 0 <= i < counts@.len() ==> counts@[i] < usize::MAX,
    ensures
        r@.len() == counts@.len(),
        forall|i: int| 0 <= i < r@.len() ==> #[trigger] r@[i]@.len() == counts@[i] + 1,
        forall|i: int, k: int|
            0 <= i < r@.len() && 0 <= k < r@[i]@.len() ==> #[trigger] r@[i]@[k]
                == uniform_handle(*profile),
{
    let mut out: Vec<Vec<StrokeHandle>> = Vec::new();
    let mut i: usize = 0;
    while i < counts.len()
        invariant
            0 <= i <= counts@.len(),
            out@.len() == i,
            forall|j: int| 0 <= j < counts@.len() ==> counts@[j] < usize::MAX,
            forall|j: int| 0 <= j < out@.len() ==> #[trigger] out@[j]@.len() == counts@[j] + 1,
            forall|j: int, k: int|
                0 <= j < out@.len() && 0 <= k < out@[j]@.len() ==> #[trigger] out@[j]@[k]
                    == uniform_handle(*profile),
        decreases counts@.len() - i,
    {
        let handles = build_handles(counts[i], profile);
        out.push(handles);
        i = i + 1;
    }
    out
}

/// A glyph record: the plain fields of a glyph file, and its geometry and
/// format-specific values carried opaquely.
pub struct GlyphRecord {
    pub name: String,
    pub width: Option<u64>,
    pub unicode: Vec<char>,
    pub note: Option<String>,
    pub outline: Option<OutlineData>,
    pub order: glifparser::OutlineType,
    pub anchors: AnchorData,
    pub components: glifparser::component::GlifComponents,
    pub guidelines: GuidelineData,
    pub images: Vec<glifparser::GlifImage>,
    pub filename: Option<std::path::PathBuf>,
    pub lib: Option<glifparser::glif::Lib>,
}

/// Builds the output record of a stroke run: the stroked outline replaces
/// the input's, every metadata field is carried over unchanged, and the
/// private library block is deliberately dropped, not copied.
pub fn assemble_stroked_record(rec: GlyphRecord, outline: OutlineData) -> (r: GlyphRecord)
    ensures
        r.name == rec.name,
        r.width == rec.width,
        r.unicode == rec.unicode,
        r.note == rec.note,
        r.outline == Some(outline),
        r.order == rec.order,
        r.anchors == rec.anchors,
        r.components == rec.components,
        r.guidelines == rec.guidelines,
        r.images == rec.images,
        r.filename == rec.filename,
        r.lib is None,
{
    GlyphRecord {
        name: rec.name,
        width: rec.width,
        unicode: rec.unicode,
        note: rec.note,
        outline: Some(outline),
        order: rec.order,
        anchors: rec.anchors,
        components: rec.components,
        guidelines: rec.guidelines,
        images: rec.images,
        filename: rec.filename,
        lib: None,
    }
}

} // verus!
