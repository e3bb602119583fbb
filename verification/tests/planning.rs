use ufostroker::glyphs::{ContourShape, PointKind, has_open_contour, is_open_contour};
use ufostroker::traverse::{LayerEntry, plan_traversal};

fn contour(kinds: &[PointKind]) -> ContourShape {
    ContourShape { kinds: kinds.to_vec() }
}

#[test]
fn a_contour_is_open_exactly_when_it_starts_with_a_move() {
    assert!(is_open_contour(&contour(&[PointKind::Move, PointKind::Line])));
    assert!(!is_open_contour(&contour(&[PointKind::Line, PointKind::Move])));
    assert!(!is_open_contour(&contour(&[PointKind::Curve])));
    assert!(!is_open_contour(&contour(&[])));
}

#[test]
fn a_glyph_is_eligible_with_at_least_one_open_contour() {
    let closed = contour(&[PointKind::Line, PointKind::Line]);
    let open = contour(&[PointKind::Move, PointKind::Line]);
    assert!(has_open_contour(&vec![closed.clone(), open.clone()]));
    assert!(!has_open_contour(&vec![closed.clone(), closed.clone()]));
    assert!(!has_open_contour(&vec![]));
}

#[test]
fn the_plan_holds_exactly_the_eligible_glyphs_in_layer_order() {
    let open_glyph = |name: &str| LayerEntry {
        name: name.to_owned(),
        contours: vec![contour(&[PointKind::Move, PointKind::Line, PointKind::Line])],
    };
    let closed_glyph = |name: &str| LayerEntry {
        name: name.to_owned(),
        contours: vec![contour(&[PointKind::Line, PointKind::Line, PointKind::Line])],
    };
    let entries = vec![
        open_glyph("A"),
        closed_glyph("B"),
        open_glyph("C"),
        closed_glyph("D"),
    ];
    let plan = plan_traversal(&entries);
    assert_eq!(plan, vec![0, 2]);
}

#[test]
fn a_glyph_with_only_closed_contours_is_skipped_entirely() {
    let entries = vec![LayerEntry {
        name: "B".to_owned(),
        contours: vec![
            contour(&[PointKind::Line, PointKind::Curve, PointKind::OffCurve]),
            contour(&[PointKind::QCurve, PointKind::Line]),
        ],
    }];
    let plan = plan_traversal(&entries);
    assert!(plan.is_empty());
}

#[test]
fn a_glyph_with_no_contours_is_skipped() {
    let entries = vec![LayerEntry { name: "space".to_owned(), contours: vec![] }];
    assert!(plan_traversal(&entries).is_empty());
}
