use vstd::prelude::*;
use crate::settings::ConfigError;
use crate::settings::PatternSpec;
use crate::settings::RawPatternOptions;
use crate::settings::RawStrokeOptions;
use crate::settings::StrokeSpec;
use crate::settings::Warning;
use crate::settings::pattern_warning_seq;
use crate::settings::resolve_pattern_settings;
use crate::settings::resolve_stroke_settings;
use crate::settings::resolved_pattern_spec;
use crate::settings::resolved_stroke_spec;
use crate::settings::stroke_config_error;
use crate::settings::stroke_warning_seq;

verus! {

/// The pattern subcommand: the name of the pattern glyph, and its options.
#[derive(Clone, Debug)]
pub struct PatternCommand {
    pub glyph: String,
    pub options: RawPatternOptions,
}

/// One parsed command line: the chosen subcommand with its raw options.
#[derive(Clone, Debug)]
pub enum Command {
    Noodle(RawStrokeOptions),
    Pattern(PatternCommand),
}

/// The transformation one run applies to every eligible glyph.
#[derive(Clone, Copy, PartialEq, Eq, Structural, Debug)]
pub enum RunPlan {
    Stroke(StrokeSpec),
    Pattern(PatternSpec),
}

/// Resolves one run from the parsed command line. A stroke run with an
/// unknown cap or join literal, and a pattern run whose pattern glyph is
/// not in the layer, abort here: before any glyph is read or written.
/// Everything else resolves, at worst with warnings.
pub fn plan_run(cmd: &Command, pattern_glyph_in_layer: bool) -> (r: Result<
    (RunPlan, Vec<Warning>),
    ConfigError,
>)
    ensures
        match *cmd {
            Command::Noodle(o) => match r {
                Ok(p) => stroke_config_error(o) is None && p.0 == RunPlan::Stroke(
                    resolved_stroke_spec(o),
                ) && p.1@ == stroke_warning_seq(o),
                Err(e) => stroke_config_error(o) == Some(e),
            },
            Command::Pattern(pc) => match r {
                Ok(p) => pattern_glyph_in_layer && p.0 == RunPlan::Pattern(
                    resolved_pattern_spec(pc.options),
                ) && p.1@ == pattern_warning_seq(pc.options),
                Err(e) => !pattern_glyph_in_layer && e == ConfigError::MissingPatternGlyph,
            },
        },
{
    match cmd {
        Command::Noodle(opts) => {
            let (profile, warnings) = match resolve_stroke_settings(opts) {
                Ok(p) => p,
                Err(e) => { return Err(e); },
            };
            Ok((RunPlan::Stroke(profile), warnings))
        },
        Command::Pattern(pc) => {
            if !pattern_glyph_in_layer {
                return Err(ConfigError::MissingPatternGlyph);
            }
            let (profile, warnings) = resolve_pattern_settings(&pc.options);
            Ok((RunPlan::Pattern(profile), warnings))
        },
    }
}

} // verus!
