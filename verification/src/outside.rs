use vstd::prelude::*;

verus! {

// The glyph records that a run reads and writes carry, besides their plain
// fields, values of the glyph parser's own types. Those values are opaque
// here: the library moves them through unchanged and never looks inside.

/// Whether an outline is cubic or quadratic.
#[verifier::external_type_specification]
#[verifier::external_body]
pub struct ExOutlineType(glifparser::OutlineType);

/// The components of a glyph.
#[verifier::external_type_specification]
#[verifier::external_body]
pub struct ExGlifComponents(glifparser::component::GlifComponents);

/// An image reference of a glyph.
#[verifier::external_type_specification]
#[verifier::external_body]
pub struct ExGlifImage(glifparser::GlifImage);

/// The private library block of a glyph file.
#[verifier::external_type_specification]
#[verifier::external_body]
pub struct ExLib(glifparser::glif::Lib);

/// An owned filesystem path, kept only to be copied into the output record.
#[verifier::external_type_specification]
#[verifier::external_body]
pub struct ExPathBuf(std::path::PathBuf);

// The parser's point, anchor and guideline types take a generic parameter
// bound by the parser's own trait, which Verus refuses to declare; the
// collections of them are therefore held whole in opaque holders.

/// The contours of a glyph file: sequences of parser points.
#[verifier::external_body]
pub struct OutlineData(pub Vec<Vec<glifparser::Point<glifparser::glif::MFEKPointData>>>);

/// The anchors of a glyph file.
#[verifier::external_body]
pub struct AnchorData(pub Vec<glifparser::Anchor<glifparser::glif::MFEKPointData>>);

/// The guidelines of a glyph file.
#[verifier::external_body]
pub struct GuidelineData(pub Vec<glifparser::Guideline<glifparser::glif::MFEKPointData>>);

} // verus!
