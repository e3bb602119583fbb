use ufostroker::settings::{RawStrokeOptions, ScalarArg, resolve_stroke_settings};
use ufostroker::stroke::{InterpKind, build_handles, stroke_profiles};

fn stroke_spec_of_size(size: f64) -> ufostroker::settings::StrokeSpec {
    let opts = RawStrokeOptions {
        cap_start: None,
        cap_end: None,
        join: None,
        size: ScalarArg::Given(size.to_bits()),
        angle: ScalarArg::Absent,
    };
    resolve_stroke_settings(&opts).unwrap().0
}

#[test]
fn a_contour_with_s_segments_gets_s_plus_one_handles() {
    let spec = stroke_spec_of_size(5.0);
    for segments in [0usize, 1, 4, 17] {
        let handles = build_handles(segments, &spec);
        assert_eq!(handles.len(), segments + 1);
    }
}

#[test]
fn every_handle_of_a_uniform_run_carries_the_resolved_profile() {
    let spec = stroke_spec_of_size(5.0);
    let handles = build_handles(4, &spec);
    for h in &handles {
        assert_eq!(f64::from_bits(h.left_bits), 5.0);
        assert_eq!(f64::from_bits(h.right_bits), 5.0);
        assert_eq!(f64::from_bits(h.tangent_bits), 0.0);
        assert_eq!(h.interpolation, InterpKind::Linear);
    }
}

#[test]
fn per_contour_profiles_follow_the_segment_counts() {
    let spec = stroke_spec_of_size(2.0);
    let counts = vec![4usize, 1, 9];
    let profiles = stroke_profiles(&counts, &spec);
    assert_eq!(profiles.len(), 3);
    for (i, profile) in profiles.iter().enumerate() {
        assert_eq!(profile.len(), counts[i] + 1);
        for h in profile {
            assert_eq!(f64::from_bits(h.left_bits), 2.0);
            assert_eq!(f64::from_bits(h.right_bits), 2.0);
        }
    }
}
