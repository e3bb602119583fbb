use vstd::prelude::*;
use crate::numeric::count_of_literal;
use crate::numeric::parse_count;

verus! {

/// IEEE-754 double bit pattern of ten, the default stroke half-width.
pub const DEFAULT_WIDTH_BITS: u64 = 0x4024_0000_0000_0000;

/// IEEE-754 double bit pattern of zero, the default angle, spacing and offsets.
pub const ZERO_BITS: u64 = 0;

/// IEEE-754 double bit pattern of one, the default pattern scale on each axis.
pub const ONE_BITS: u64 = 0x3FF0_0000_0000_0000;

/// Cap style at an end of an open stroked path.
#[derive(Clone, Copy, PartialEq, Eq, Structural, Debug)]
pub enum CapKind {
    Round,
    Circle,
    Square,
    Custom,
}

/// Join style between stroked segments.
#[derive(Clone, Copy, PartialEq, Eq, Structural, Debug)]
pub enum JoinKind {
    Round,
    Circle,
    Miter,
    Bevel,
}

/// How often the pattern is laid along the path.
#[derive(Clone, Copy, PartialEq, Eq, Structural, Debug)]
pub enum RepeatKind {
    Single,
    Repeated,
}

/// Whether pattern copies are subdivided, and how many times.
#[derive(Clone, Copy, PartialEq, Eq, Structural, Debug)]
pub enum Subdivide {
    Off,
    Simple(usize),
}

/// A numeric option as it arrives from the command line: absent, or given and
/// understood as a number (carried as the IEEE-754 bit pattern of the parsed
/// value), or given but malformed. The parse itself happens at the edge of
/// the program, since the parsed value is a floating-point number.
#[derive(Clone, Copy, PartialEq, Eq, Structural, Debug)]
pub enum ScalarArg {
    Absent,
    Given(u64),
    Malformed,
}

/// The raw configuration of a stroke run, one field per option.
#[derive(Clone, Debug)]
pub struct RawStrokeOptions {
    pub cap_start: Option<String>,
    pub cap_end: Option<String>,
    pub join: Option<String>,
    pub size: ScalarArg,
    pub angle: ScalarArg,
}

/// The raw configuration of a pattern run, one field per option.
#[derive(Clone, Debug)]
pub struct RawPatternOptions {
    pub repeat_mode: Option<String>,
    pub scale_x: ScalarArg,
    pub scale_y: ScalarArg,
    pub subdivide: Option<String>,
    pub spacing: ScalarArg,
    pub normal_offset: ScalarArg,
    pub tangent_offset: ScalarArg,
    pub center_pattern: Option<String>,
    pub simplify: Option<String>,
    pub stretch: Option<String>,
}

/// A fully resolved stroke profile: cap styles, join style, half-width and
/// tangent angle (both carried as IEEE-754 bit patterns).
#[derive(Clone, Copy, PartialEq, Eq, Structural, Debug)]
pub struct StrokeSpec {
    pub cap_start: CapKind,
    pub cap_end: CapKind,
    pub join: JoinKind,
    pub width_bits: u64,
    pub angle_bits: u64,
}

/// A fully resolved pattern profile. Scalar fields carry IEEE-754 bit
/// patterns of the configured values.
#[derive(Clone, Copy, PartialEq, Eq, Structural, Debug)]
pub struct PatternSpec {
    pub copies: RepeatKind,
    pub subdivide: Subdivide,
    pub is_vertical: bool,
    pub normal_offset_bits: u64,
    pub tangent_offset_bits: u64,
    pub center_pattern: bool,
    pub scale_x_bits: u64,
    pub scale_y_bits: u64,
    pub spacing_bits: u64,
    pub stretch: bool,
    pub simplify: bool,
}

/// One warning per option whose given value was malformed and fell back to
/// its default.
#[derive(Clone, Copy, PartialEq, Eq, Structural, Debug)]
pub enum Warning {
    InvalidRepeatMode,
    InvalidScaleX,
    InvalidScaleY,
    InvalidSubdivision,
    InvalidSpacing,
    InvalidNormalOffset,
    InvalidTangentOffset,
    InvalidCenterPattern,
    InvalidSimplify,
    InvalidStretch,
    InvalidSize,
    InvalidAngle,
}

/// A configuration fault that aborts the run before any glyph is touched.
#[derive(Clone, Copy, PartialEq, Eq, Structural, Debug)]
pub enum ConfigError {
    UnknownCap,
    UnknownJoin,
    MissingPatternGlyph,
}

/// The cap style a literal names, if any.
pub open spec fn cap_of_literal(s: Seq<char>) -> Option<CapKind> {
    if s == "round"@ {
        Some(CapKind::Round)
    } else if s == "circle"@ {
        Some(CapKind::Circle)
    } else if s == "square"@ {
        Some(CapKind::Square)
    } else if s == "custom"@ {
        Some(CapKind::Custom)
    } else {
        None
    }
}

/// The join style a literal names, if any.
pub open spec fn join_of_literal(s: Seq<char>) -> Option<JoinKind> {
    if s == "round"@ {
        Some(JoinKind::Round)
    } else if s == "circle"@ {
        Some(JoinKind::Circle)
    } else if s == "miter"@ {
        Some(JoinKind::Miter)
    } else if s == "bevel"@ {
        Some(JoinKind::Bevel)
    } else {
        None
    }
}

/// The repeat mode a literal names, if any.
pub open spec fn repeat_of_literal(s: Seq<char>) -> Option<RepeatKind> {
    if s == "single"@ {
        Some(RepeatKind::Single)
    } else if s == "repeated"@ {
        Some(RepeatKind::Repeated)
    } else {
        None
    }
}

/// The truth value a literal names, if any.
pub open spec fn bool_of_literal(s: Seq<char>) -> Option<bool> {
    if s == "true"@ {
        Some(true)
    } else if s == "false"@ {
        Some(false)
    } else {
        None
    }
}

pub fn parse_cap(s: &String) -> (r: Option<CapKind>)
    ensures
        r == cap_of_literal(s@),
{
    if *s == "round".to_owned() {
        Some(CapKind::Round)
    } else if *s == "circle".to_owned() {
        Some(CapKind::Circle)
    } else if *s == "square".to_owned() {
        Some(CapKind::Square)
    } else if *s == "custom".to_owned() {
        Some(CapKind::Custom)
    } else {
        None
    }
}

pub fn parse_join(s: &String) -> (r: Option<JoinKind>)
    ensures
        r == join_of_literal(s@),
{
    if *s == "round".to_owned() {
        Some(JoinKind::Round)
    } else if *s == "circle".to_owned() {
        Some(JoinKind::Circle)
    } else if *s == "miter".to_owned() {
        Some(JoinKind::Miter)
    } else if *s == "bevel".to_owned() {
        Some(JoinKind::Bevel)
    } else {
        None
    }
}

pub fn parse_repeat(s: &String) -> (r: Option<RepeatKind>)
    ensures
        r == repeat_of_literal(s@),
{
    if *s == "single".to_owned() {
        Some(RepeatKind::Single)
    } else if *s == "repeated".to_owned() {
        Some(RepeatKind::Repeated)
    } else {
        None
    }
}

pub fn parse_bool(s: &String) -> (r: Option<bool>)
    ensures
        r == bool_of_literal(s@),
{
    if *s == "true".to_owned() {
        Some(true)
    } else if *s == "false".to_owned() {
        Some(false)
    } else {
        None
    }
}

/// The scalar an option resolves to: the given value, or the default where
/// the option is absent or malformed.
pub open spec fn resolved_scalar(o: ScalarArg, default_bits: u64) -> u64 {
    match o {
        ScalarArg::Given(b) => b,
        _ => default_bits,
    }
}

/// A present but malformed scalar draws a warning.
pub open spec fn scalar_warns(o: ScalarArg) -> bool {
    o is Malformed
}

/// A present literal that names no repeat mode draws a warning.
pub open spec fn repeat_warns(o: Option<String>) -> bool {
    match o {
        Some(s) => repeat_of_literal(s@) is None,
        None => false,
    }
}

/// A present literal that names no truth value draws a warning.
pub open spec fn bool_warns(o: Option<String>) -> bool {
    match o {
        Some(s) => bool_of_literal(s@) is None,
        None => false,
    }
}

/// A present literal that denotes no count draws a warning.
pub open spec fn count_warns(o: Option<String>) -> bool {
    match o {
        Some(s) => count_of_literal(s@) is None,
        None => false,
    }
}

pub open spec fn resolved_repeat(o: Option<String>) -> RepeatKind {
    match o {
        Some(s) => match repeat_of_literal(s@) {
            Some(k) => k,
            None => RepeatKind::Repeated,
        },
        None => RepeatKind::Repeated,
    }
}

pub open spec fn resolved_bool(o: Option<String>, default: bool) -> bool {
    match o {
        Some(s) => match bool_of_literal(s@) {
            Some(b) => b,
            None => default,
        },
        None => default,
    }
}

pub open spec fn resolved_subdivide(o: Option<String>) -> Subdivide {
    match o {
        Some(s) => match count_of_literal(s@) {
            Some(n) => Subdivide::Simple(n),
            None => Subdivide::Off,
        },
        None => Subdivide::Off,
    }
}

/// The cap style an optional literal resolves to, round when absent, or
/// nothing at all on an unknown literal: that aborts the run.
pub open spec fn resolved_cap(o: Option<String>) -> Option<CapKind> {
    match o {
        Some(s) => cap_of_literal(s@),
        None => Some(CapKind::Round),
    }
}

pub open spec fn resolved_join(o: Option<String>) -> Option<JoinKind> {
    match o {
        Some(s) => join_of_literal(s@),
        None => Some(JoinKind::Round),
    }
}

pub open spec fn default_stroke_spec() -> StrokeSpec {
    StrokeSpec {
        cap_start: CapKind::Round,
        cap_end: CapKind::Round,
        join: JoinKind::Round,
        width_bits: DEFAULT_WIDTH_BITS,
        angle_bits: ZERO_BITS,
    }
}

pub open spec fn default_pattern_spec() -> PatternSpec {
    PatternSpec {
        copies: RepeatKind::Repeated,
        subdivide: Subdivide::Off,
        is_vertical: false,
        normal_offset_bits: ZERO_BITS,
        tangent_offset_bits: ZERO_BITS,
        center_pattern: true,
        scale_x_bits: ONE_BITS,
        scale_y_bits: ONE_BITS,
        spacing_bits: ZERO_BITS,
        stretch: false,
        simplify: false,
    }
}

/// The pattern profile the raw options resolve to.
pub open spec fn resolved_pattern_spec(o: RawPatternOptions) -> PatternSpec {
    PatternSpec {
        copies: resolved_repeat(o.repeat_mode),
        subdivide: resolved_subdivide(o.subdivide),
        is_vertical: false,
        normal_offset_bits: resolved_scalar(o.normal_offset, ZERO_BITS),
        tangent_offset_bits: resolved_scalar(o.tangent_offset, ZERO_BITS),
        center_pattern: resolved_bool(o.center_pattern, true),
        scale_x_bits: resolved_scalar(o.scale_x, ONE_BITS),
        scale_y_bits: resolved_scalar(o.scale_y, ONE_BITS),
        spacing_bits: resolved_scalar(o.spacing, ZERO_BITS),
        stretch: resolved_bool(o.stretch, false),
        simplify: resolved_bool(o.simplify, false),
    }
}

/// The stroke profile the raw options resolve to, meaningful only where
/// `stroke_config_error` finds no fault.
pub open spec fn resolved_stroke_spec(o: RawStrokeOptions) -> StrokeSpec {
    StrokeSpec {
        cap_start: match resolved_cap(o.cap_start) {
            Some(k) => k,
            None => CapKind::Round,
        },
        cap_end: match resolved_cap(o.cap_end) {
            Some(k) => k,
            None => CapKind::Round,
        },
        join: match resolved_join(o.join) {
            Some(k) => k,
            None => JoinKind::Round,
        },
        width_bits: resolved_scalar(o.size, DEFAULT_WIDTH_BITS),
        angle_bits: resolved_scalar(o.angle, ZERO_BITS),
    }
}

/// The fatal fault in a stroke configuration, if any: an unknown cap literal
/// first, then an unknown join literal. All other faults only warn.
pub open spec fn stroke_config_error(o: RawStrokeOptions) -> Option<ConfigError> {
    if resolved_cap(o.cap_start) is None || resolved_cap(o.cap_end) is None {
        Some(ConfigError::UnknownCap)
    } else if resolved_join(o.join) is None {
        Some(ConfigError::UnknownJoin)
    } else {
        None
    }
}

pub open spec fn maybe_warn(w: Warning, bad: bool) -> Seq<Warning> {
    if bad {
        seq![w]
    } else {
        Seq::empty()
    }
}

/// The warnings a pattern resolution emits, in option order.
pub open spec fn pattern_warning_seq(o: RawPatternOptions) -> Seq<Warning> {
    maybe_warn(Warning::InvalidRepeatMode, repeat_warns(o.repeat_mode))
        + maybe_warn(Warning::InvalidScaleX, scalar_warns(o.scale_x))
        + maybe_warn(Warning::InvalidScaleY, scalar_warns(o.scale_y))
        + maybe_warn(Warning::InvalidSubdivision, count_warns(o.subdivide))
        + maybe_warn(Warning::InvalidSpacing, scalar_warns(o.spacing))
        + maybe_warn(Warning::InvalidNormalOffset, scalar_warns(o.normal_offset))
        + maybe_warn(Warning::InvalidTangentOffset, scalar_warns(o.tangent_offset))
        + maybe_warn(Warning::InvalidCenterPattern, bool_warns(o.center_pattern))
        + maybe_warn(Warning::InvalidSimplify, bool_warns(o.simplify))
        + maybe_warn(Warning::InvalidStretch, bool_warns(o.stretch))
}

/// The warnings a stroke resolution emits, in option order.
pub open spec fn stroke_warning_seq(o: RawStrokeOptions) -> Seq<Warning> {
    maybe_warn(Warning::InvalidSize, scalar_warns(o.size))
        + maybe_warn(Warning::InvalidAngle, scalar_warns(o.angle))
}

/// No pattern option was given at all.
pub open spec fn pattern_options_empty(o: RawPatternOptions) -> bool {
    o.repeat_mode is None && o.scale_x is Absent && o.scale_y is Absent
        && o.subdivide is None && o.spacing is Absent && o.normal_offset is Absent
        && o.tangent_offset is Absent && o.center_pattern is None && o.simplify is None
        && o.stretch is None
}

/// No stroke option was given at all.
pub open spec fn stroke_options_empty(o: RawStrokeOptions) -> bool {
    o.cap_start is None && o.cap_end is None && o.join is None && o.size is Absent
        && o.angle is Absent
}

/// Applies one numeric option: a given value replaces the default already
/// in place, a malformed one keeps it and draws the given warning.
fn apply_scalar(o: &ScalarArg, target: &mut u64, w: Warning, warnings: &mut Vec<Warning>)
    ensures
        *final(target) == resolved_scalar(*o, *old(target)),
        final(warnings)@ == old(warnings)@ + maybe_warn(w, scalar_warns(*o)),
{
    match o {
        ScalarArg::Given(b) => { *target = *b; },
        ScalarArg::Malformed => { warnings.push(w); },
        ScalarArg::Absent => {},
    }
    proof {
        assert(warnings@ =~= old(warnings)@ + maybe_warn(w, scalar_warns(*o)));
    }
}

/// Applies one boolean option in the same way.
fn apply_bool(o: &Option<String>, target: &mut bool, w: Warning, warnings: &mut Vec<Warning>)
    ensures
        *final(target) == resolved_bool(*o, *old(target)),
        final(warnings)@ == old(warnings)@ + maybe_warn(w, bool_warns(*o)),
{
    match o {
        Some(s) => match parse_bool(s) {
            Some(b) => { *target = b; },
            None => { warnings.push(w); },
        },
        None => {},
    }
    proof {
        assert(warnings@ =~= old(warnings)@ + maybe_warn(w, bool_warns(*o)));
    }
}

/// Applies the repeat-mode option; an unknown literal keeps the default.
fn apply_repeat(o: &Option<String>, target: &mut RepeatKind, warnings: &mut Vec<Warning>)
    requires
        *old(target) == RepeatKind::Repeated,
    ensures
        *final(target) == resolved_repeat(*o),
        final(warnings)@ == old(warnings)@ + maybe_warn(
            Warning::InvalidRepeatMode,
            repeat_warns(*o),
        ),
{
    match o {
        Some(s) => match parse_repeat(s) {
            Some(k) => { *target = k; },
            None => { warnings.push(Warning::InvalidRepeatMode); },
        },
        None => {},
    }
    proof {
        assert(warnings@ =~= old(warnings)@ + maybe_warn(
            Warning::InvalidRepeatMode,
            repeat_warns(*o),
        ));
    }
}

/// Applies the subdivision option; a malformed count keeps subdivision off.
fn apply_subdivide(o: &Option<String>, target: &mut Subdivide, warnings: &mut Vec<Warning>)
    requires
        *old(target) == Subdivide::Off,
    ensures
        *final(target) == resolved_subdivide(*o),
        final(warnings)@ == old(warnings)@ + maybe_warn(
            Warning::InvalidSubdivision,
            count_warns(*o),
        ),
{
    match o {
        Some(s) => match parse_count(s.as_str()) {
            Some(n) => { *target = Subdivide::Simple(n); },
            None => { warnings.push(Warning::InvalidSubdivision); },
        },
        None => {},
    }
    proof {
        assert(warnings@ =~= old(warnings)@ + maybe_warn(
            Warning::InvalidSubdivision,
            count_warns(*o),
        ));
    }
}

/// Builds the pattern profile: every option falls back to its documented
/// default when absent or malformed, and each malformed option draws
/// exactly one warning. Nothing here aborts the run.
pub fn resolve_pattern_settings(opts: &RawPatternOptions) -> (r: (PatternSpec, Vec<Warning>))
    ensures
        r.0 == resolved_pattern_spec(*opts),
        r.1@ == pattern_warning_seq(*opts),
        pattern_options_empty(*opts) ==> r.0 == default_pattern_spec() && r.1@.len() == 0,
{
    let mut settings = PatternSpec {
        copies: RepeatKind::Repeated,
        subdivide: Subdivide::Off,
        is_vertical: false,
        normal_offset_bits: ZERO_BITS,
        tangent_offset_bits: ZERO_BITS,
        center_pattern: true,
        scale_x_bits: ONE_BITS,
        scale_y_bits: ONE_BITS,
        spacing_bits: ZERO_BITS,
        stretch: false,
        simplify: false,
    };
    let mut warnings: Vec<Warning> = Vec::new();
    apply_repeat(&opts.repeat_mode, &mut settings.copies, &mut warnings);
    apply_scalar(&opts.scale_x, &mut settings.scale_x_bits, Warning::InvalidScaleX, &mut warnings);
    apply_scalar(&opts.scale_y, &mut settings.scale_y_bits, Warning::InvalidScaleY, &mut warnings);
    apply_subdivide(&opts.subdivide, &mut settings.subdivide, &mut warnings);
    apply_scalar(&opts.spacing, &mut settings.spacing_bits, Warning::InvalidSpacing, &mut warnings);
    apply_scalar(
        &opts.normal_offset,
        &mut settings.normal_offset_bits,
        Warning::InvalidNormalOffset,
        &mut warnings,
    );
    apply_scalar(
        &opts.tangent_offset,
        &mut settings.tangent_offset_bits,
        Warning::InvalidTangentOffset,
        &mut warnings,
    );
    apply_bool(
        &opts.center_pattern,
        &mut settings.center_pattern,
        Warning::InvalidCenterPattern,
        &mut warnings,
    );
    apply_bool(&opts.simplify, &mut settings.simplify, Warning::InvalidSimplify, &mut warnings);
    apply_bool(&opts.stretch, &mut settings.stretch, Warning::InvalidStretch, &mut warnings);
    proof {
        assert(warnings@ =~= pattern_warning_seq(*opts));
        if pattern_options_empty(*opts) {
            lemma_empty_pattern_config_is_default(*opts);
        }
    }
    (settings, warnings)
}

/// Builds the stroke profile. An unknown cap or join literal is fatal;
/// a malformed size or angle only warns and keeps the default.
pub fn resolve_stroke_settings(opts: &RawStrokeOptions) -> (r: Result<
    (StrokeSpec, Vec<Warning>),
    ConfigError,
>)
    ensures
        match r {
            Ok(p) => stroke_config_error(*opts) is None && p.0 == resolved_stroke_spec(*opts)
                && p.1@ == stroke_warning_seq(*opts),
            Err(e) => stroke_config_error(*opts) == Some(e),
        },
        stroke_options_empty(*opts) ==> (r matches Ok(p) && p.0 == default_stroke_spec()
            && p.1@.len() == 0),
{
    let cap_start = match &opts.cap_start {
        Some(s) => match parse_cap(s) {
            Some(k) => k,
            None => { return Err(ConfigError::UnknownCap); },
        },
        None => CapKind::Round,
    };
    let cap_end = match &opts.cap_end {
        Some(s) => match parse_cap(s) {
            Some(k) => k,
            None => { return Err(ConfigError::UnknownCap); },
        },
        None => CapKind::Round,
    };
    let join = match &opts.join {
        Some(s) => match parse_join(s) {
            Some(k) => k,
            None => { return Err(ConfigError::UnknownJoin); },
        },
        None => JoinKind::Round,
    };
    let mut settings = StrokeSpec {
        cap_start,
        cap_end,
        join,
        width_bits: DEFAULT_WIDTH_BITS,
        angle_bits: ZERO_BITS,
    };
    let mut warnings: Vec<Warning> = Vec::new();
    match &opts.size {
        ScalarArg::Given(b) => { settings.width_bits = *b; },
        ScalarArg::Malformed => { warnings.push(Warning::InvalidSize); },
        ScalarArg::Absent => {},
    }
    match &opts.angle {
        ScalarArg::Given(b) => { settings.angle_bits = *b; },
        ScalarArg::Malformed => { warnings.push(Warning::InvalidAngle); },
        ScalarArg::Absent => {},
    }
    proof {
        assert(warnings@ =~= stroke_warning_seq(*opts));
    }
    Ok((settings, warnings))
}

/// Resolving from an empty configuration always yields the documented
/// default pattern profile, and no warnings.
pub proof fn lemma_empty_pattern_config_is_default(o: RawPatternOptions)
    requires
        pattern_options_empty(o),
    ensures
        resolved_pattern_spec(o) == default_pattern_spec(),
        pattern_warning_seq(o) == Seq::<Warning>::empty(),
{
    assert(pattern_warning_seq(o) =~= Seq::<Warning>::empty());
}

/// Resolving from an empty configuration always yields the documented
/// default stroke profile, no warnings, and no fatal fault.
pub proof fn lemma_empty_stroke_config_is_default(o: RawStrokeOptions)
    requires
        stroke_options_empty(o),
    ensures
        stroke_config_error(o) is None,
        resolved_stroke_spec(o) == default_stroke_spec(),
        stroke_warning_seq(o) == Seq::<Warning>::empty(),
{
    assert(stroke_warning_seq(o) =~= Seq::<Warning>::empty());
}

/// A malformed scale option keeps the default scale of one and draws the
/// scale warning; where every other option is in order, that warning is the
/// only one.
pub proof fn lemma_malformed_scale_x_keeps_default(o: RawPatternOptions)
    requires
        o.scale_x is Malformed,
    ensures
        resolved_pattern_spec(o).scale_x_bits == ONE_BITS,
        pattern_warning_seq(o).contains(Warning::InvalidScaleX),
        !repeat_warns(o.repeat_mode) && !scalar_warns(o.scale_y) && !count_warns(o.subdivide)
            && !scalar_warns(o.spacing) && !scalar_warns(o.normal_offset)
            && !scalar_warns(o.tangent_offset) && !bool_warns(o.center_pattern)
            && !bool_warns(o.simplify) && !bool_warns(o.stretch)
            ==> pattern_warning_seq(o) == seq![Warning::InvalidScaleX],
{
    let ws = pattern_warning_seq(o);
    assert(ws[maybe_warn(Warning::InvalidRepeatMode, repeat_warns(o.repeat_mode)).len() as int]
        == Warning::InvalidScaleX);
    if !repeat_warns(o.repeat_mode) && !scalar_warns(o.scale_y) && !count_warns(o.subdivide)
        && !scalar_warns(o.spacing) && !scalar_warns(o.normal_offset)
        && !scalar_warns(o.tangent_offset) && !bool_warns(o.center_pattern)
        && !bool_warns(o.simplify) && !bool_warns(o.stretch) {
        assert(ws =~= seq![Warning::InvalidScaleX]);
    }
}

} // verus!
