use ufostroker::numeric::parse_count;
use ufostroker::orchestrate::{Command, PatternCommand, RunPlan, plan_run};
use ufostroker::settings::{
    CapKind, ConfigError, JoinKind, RawPatternOptions, RawStrokeOptions, RepeatKind, ScalarArg,
    Subdivide, Warning, parse_bool, parse_cap, parse_join, parse_repeat,
    resolve_pattern_settings, resolve_stroke_settings, DEFAULT_WIDTH_BITS, ONE_BITS, ZERO_BITS,
};

fn empty_pattern_options() -> RawPatternOptions {
    RawPatternOptions {
        repeat_mode: None,
        scale_x: ScalarArg::Absent,
        scale_y: ScalarArg::Absent,
        subdivide: None,
        spacing: ScalarArg::Absent,
        normal_offset: ScalarArg::Absent,
        tangent_offset: ScalarArg::Absent,
        center_pattern: None,
        simplify: None,
        stretch: None,
    }
}

fn empty_stroke_options() -> RawStrokeOptions {
    RawStrokeOptions { cap_start: None, cap_end: None, join: None, size: ScalarArg::Absent, angle: ScalarArg::Absent }
}

#[test]
fn bit_constants_match_the_documented_defaults() {
    assert_eq!(DEFAULT_WIDTH_BITS, 10.0f64.to_bits());
    assert_eq!(ZERO_BITS, 0.0f64.to_bits());
    assert_eq!(ONE_BITS, 1.0f64.to_bits());
}

#[test]
fn empty_pattern_config_resolves_to_defaults() {
    let (spec, warnings) = resolve_pattern_settings(&empty_pattern_options());
    assert_eq!(spec.copies, RepeatKind::Repeated);
    assert_eq!(spec.subdivide, Subdivide::Off);
    assert!(!spec.is_vertical);
    assert_eq!(spec.normal_offset_bits, 0.0f64.to_bits());
    assert_eq!(spec.tangent_offset_bits, 0.0f64.to_bits());
    assert!(spec.center_pattern);
    assert_eq!(spec.scale_x_bits, 1.0f64.to_bits());
    assert_eq!(spec.scale_y_bits, 1.0f64.to_bits());
    assert_eq!(spec.spacing_bits, 0.0f64.to_bits());
    assert!(!spec.stretch);
    assert!(!spec.simplify);
    assert!(warnings.is_empty());
}

#[test]
fn empty_stroke_config_resolves_to_defaults() {
    let (spec, warnings) = resolve_stroke_settings(&empty_stroke_options()).unwrap();
    assert_eq!(spec.cap_start, CapKind::Round);
    assert_eq!(spec.cap_end, CapKind::Round);
    assert_eq!(spec.join, JoinKind::Round);
    assert_eq!(spec.width_bits, 10.0f64.to_bits());
    assert_eq!(spec.angle_bits, 0.0f64.to_bits());
    assert!(warnings.is_empty());
}

#[test]
fn malformed_scale_x_keeps_default_and_warns_once() {
    // the edge hands a value like "notanumber" over as Malformed
    let mut opts = empty_pattern_options();
    opts.scale_x = ScalarArg::Malformed;
    let (spec, warnings) = resolve_pattern_settings(&opts);
    assert_eq!(spec.scale_x_bits, 1.0f64.to_bits());
    assert_eq!(warnings, vec![Warning::InvalidScaleX]);
}

#[test]
fn each_malformed_pattern_option_warns() {
    let mut opts = empty_pattern_options();
    opts.repeat_mode = Some("sometimes".to_owned());
    opts.scale_y = ScalarArg::Malformed;
    opts.subdivide = Some("notanumber".to_owned());
    opts.spacing = ScalarArg::Malformed;
    opts.normal_offset = ScalarArg::Malformed;
    opts.tangent_offset = ScalarArg::Malformed;
    opts.center_pattern = Some("yes".to_owned());
    opts.simplify = Some("no".to_owned());
    opts.stretch = Some("maybe".to_owned());
    let (spec, warnings) = resolve_pattern_settings(&opts);
    assert_eq!(
        warnings,
        vec![
            Warning::InvalidRepeatMode,
            Warning::InvalidScaleY,
            Warning::InvalidSubdivision,
            Warning::InvalidSpacing,
            Warning::InvalidNormalOffset,
            Warning::InvalidTangentOffset,
            Warning::InvalidCenterPattern,
            Warning::InvalidSimplify,
            Warning::InvalidStretch,
        ]
    );
    assert_eq!(spec.copies, RepeatKind::Repeated);
    assert_eq!(spec.scale_y_bits, 1.0f64.to_bits());
    assert_eq!(spec.subdivide, Subdivide::Off);
    assert!(spec.center_pattern);
    assert!(!spec.simplify);
    assert!(!spec.stretch);
}

#[test]
fn given_pattern_values_are_taken() {
    let mut opts = empty_pattern_options();
    opts.repeat_mode = Some("single".to_owned());
    opts.scale_x = ScalarArg::Given(2.5f64.to_bits());
    opts.scale_y = ScalarArg::Given(0.5f64.to_bits());
    opts.subdivide = Some("3".to_owned());
    opts.spacing = ScalarArg::Given(4.0f64.to_bits());
    opts.center_pattern = Some("false".to_owned());
    opts.simplify = Some("true".to_owned());
    opts.stretch = Some("true".to_owned());
    let (spec, warnings) = resolve_pattern_settings(&opts);
    assert!(warnings.is_empty());
    assert_eq!(spec.copies, RepeatKind::Single);
    assert_eq!(spec.scale_x_bits, 2.5f64.to_bits());
    assert_eq!(spec.scale_y_bits, 0.5f64.to_bits());
    assert_eq!(spec.subdivide, Subdivide::Simple(3));
    assert_eq!(spec.spacing_bits, 4.0f64.to_bits());
    assert!(!spec.center_pattern);
    assert!(spec.simplify);
    assert!(spec.stretch);
}

#[test]
fn malformed_size_warns_and_keeps_default() {
    let mut opts = empty_stroke_options();
    opts.size = ScalarArg::Malformed;
    opts.angle = ScalarArg::Malformed;
    let (spec, warnings) = resolve_stroke_settings(&opts).unwrap();
    assert_eq!(spec.width_bits, 10.0f64.to_bits());
    assert_eq!(spec.angle_bits, 0.0f64.to_bits());
    assert_eq!(warnings, vec![Warning::InvalidSize, Warning::InvalidAngle]);
}

#[test]
fn unknown_cap_literal_is_fatal() {
    let mut opts = empty_stroke_options();
    opts.cap_start = Some("triangle".to_owned());
    assert_eq!(resolve_stroke_settings(&opts).unwrap_err(), ConfigError::UnknownCap);
    let mut opts = empty_stroke_options();
    opts.cap_end = Some("triangle".to_owned());
    assert_eq!(resolve_stroke_settings(&opts).unwrap_err(), ConfigError::UnknownCap);
}

#[test]
fn unknown_join_literal_is_fatal() {
    let mut opts = empty_stroke_options();
    opts.join = Some("pointy".to_owned());
    assert_eq!(resolve_stroke_settings(&opts).unwrap_err(), ConfigError::UnknownJoin);
}

#[test]
fn cap_and_join_literals_parse_exactly() {
    assert_eq!(parse_cap(&"round".to_owned()), Some(CapKind::Round));
    assert_eq!(parse_cap(&"circle".to_owned()), Some(CapKind::Circle));
    assert_eq!(parse_cap(&"square".to_owned()), Some(CapKind::Square));
    assert_eq!(parse_cap(&"custom".to_owned()), Some(CapKind::Custom));
    assert_eq!(parse_cap(&"Round".to_owned()), None);
    assert_eq!(parse_join(&"round".to_owned()), Some(JoinKind::Round));
    assert_eq!(parse_join(&"circle".to_owned()), Some(JoinKind::Circle));
    assert_eq!(parse_join(&"miter".to_owned()), Some(JoinKind::Miter));
    assert_eq!(parse_join(&"bevel".to_owned()), Some(JoinKind::Bevel));
    assert_eq!(parse_join(&"mitre".to_owned()), None);
    assert_eq!(parse_repeat(&"single".to_owned()), Some(RepeatKind::Single));
    assert_eq!(parse_repeat(&"repeated".to_owned()), Some(RepeatKind::Repeated));
    assert_eq!(parse_repeat(&"many".to_owned()), None);
    assert_eq!(parse_bool(&"true".to_owned()), Some(true));
    assert_eq!(parse_bool(&"false".to_owned()), Some(false));
    assert_eq!(parse_bool(&"1".to_owned()), None);
}

#[test]
fn parse_count_agrees_with_the_standard_library() {
    let cases = [
        "0", "5", "+5", "007", "18446744073709551615", "18446744073709551616",
        "99999999999999999999999", "", "+", "-3", " 5", "5 ", "3.5", "notanumber", "+abc",
    ];
    for s in cases {
        assert_eq!(parse_count(s), s.parse::<usize>().ok(), "case {:?}", s);
    }
}

#[test]
fn missing_pattern_glyph_aborts_before_any_glyph_io() {
    let cmd = Command::Pattern(PatternCommand {
        glyph: "P".to_owned(),
        options: empty_pattern_options(),
    });
    assert_eq!(plan_run(&cmd, false).unwrap_err(), ConfigError::MissingPatternGlyph);
    let plan = plan_run(&cmd, true).unwrap();
    assert!(matches!(plan.0, RunPlan::Pattern(_)));
}

#[test]
fn unknown_cap_aborts_the_whole_run() {
    let mut opts = empty_stroke_options();
    opts.cap_start = Some("triangle".to_owned());
    let cmd = Command::Noodle(opts);
    assert_eq!(plan_run(&cmd, false).unwrap_err(), ConfigError::UnknownCap);
}

#[test]
fn noodle_run_resolves_to_a_stroke_plan() {
    let mut opts = empty_stroke_options();
    opts.size = ScalarArg::Given(5.0f64.to_bits());
    let cmd = Command::Noodle(opts);
    let (plan, warnings) = plan_run(&cmd, false).unwrap();
    assert!(warnings.is_empty());
    match plan {
        RunPlan::Stroke(spec) => {
            assert_eq!(spec.width_bits, 5.0f64.to_bits());
            assert_eq!(spec.cap_start, CapKind::Round);
        }
        RunPlan::Pattern(_) => panic!("expected a stroke plan"),
    }
}
