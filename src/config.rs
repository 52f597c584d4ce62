//! Resolution of the analyzer settings into the values a pipeline starts with.

use vstd::prelude::*;

verus! {

/// Fewest bars the analyzer is asked for.
pub const MIN_BARS: i32 = 2;

/// Most bars the analyzer is asked for.
pub const MAX_BARS: i32 = 16;

/// Bar count used when none is configured.
pub const DEFAULT_BARS: i32 = 5;

/// Lowest framerate the analyzer is asked for.
pub const MIN_FRAMERATE: i32 = 60;

/// Highest framerate the analyzer is asked for.
pub const MAX_FRAMERATE: i32 = 360;

/// Framerate used when none is configured.
pub const DEFAULT_FRAMERATE: i32 = 60;

/// Substitution rule used when none is configured: drops the `;` delimiters
/// and maps the levels `0` to `7` onto an eight-step block ramp.
pub const DEFAULT_SED: &'static str = "s/;//g;s/0/▁/g;s/1/▂/g;s/2/▃/g;s/3/▄/g;s/4/▅/g;s/5/▆/g;s/6/▇/g;s/7/█/g;";

/// The settings as the configuration accessor hands them over: each one is
/// absent when the user did not set it (or set it to a value of the wrong kind).
pub struct Settings {
    pub cava_bars: Option<i32>,
    pub cava_framerate: Option<i32>,
    pub cava_sed: Option<String>,
}

/// `v` forced into `[lo, hi]`.
pub open spec fn clamp_spec(v: int, lo: int, hi: int) -> int {
    if v < lo {
        lo
    } else if v > hi {
        hi
    } else {
        v
    }
}

/// The bar count used for a requested one (absent: the default), clamped.
pub open spec fn effective_bars(requested: Option<i32>) -> int {
    match requested {
        Some(b) => clamp_spec(b as int, MIN_BARS as int, MAX_BARS as int),
        None => DEFAULT_BARS as int,
    }
}

/// The framerate used for a requested one (absent: the default), clamped.
pub open spec fn effective_framerate(requested: Option<i32>) -> int {
    match requested {
        Some(f) => clamp_spec(f as int, MIN_FRAMERATE as int, MAX_FRAMERATE as int),
        None => DEFAULT_FRAMERATE as int,
    }
}

/// The substitution rule used for a requested one (absent: the default ramp).
pub open spec fn effective_sed(requested: Option<String>) -> Seq<char> {
    match requested {
        Some(s) => s@,
        None => DEFAULT_SED@,
    }
}

fn clamp_i32(v: i32, lo: i32, hi: i32) -> (r: i32)
    requires
        lo <= hi,
    ensures
        r as int == clamp_spec(v as int, lo as int, hi as int),
{
    if v < lo {
        lo
    } else if v > hi {
        hi
    } else {
        v
    }
}

/// The substitution rule that turns the analyzer's levels into glyphs.
pub fn get_sed(config: &Settings) -> (r: String)
    ensures
        r@ == effective_sed(config.cava_sed),
{
    match &config.cava_sed {
        Some(s) => s.clone(),
        None => DEFAULT_SED.to_string(),
    }
}

/// The number of bars the analyzer should draw.
pub fn get_bars(config: &Settings) -> (r: i32)
    ensures
        r as int == effective_bars(config.cava_bars),
{
    let requested = match config.cava_bars {
        Some(b) => b,
        None => DEFAULT_BARS,
    };
    clamp_i32(requested, MIN_BARS, MAX_BARS)
}

/// The framerate the analyzer should run at.
pub fn get_framerate(config: &Settings) -> (r: i32)
    ensures
        r as int == effective_framerate(config.cava_framerate),
{
    let requested = match config.cava_framerate {
        Some(f) => f,
        None => DEFAULT_FRAMERATE,
    };
    clamp_i32(requested, MIN_FRAMERATE, MAX_FRAMERATE)
}

/// The values one pipeline start is made with, fixed for the pipeline's life.
pub struct PipelineConfig {
    pub bar_count: i32,
    pub framerate: i32,
    pub transform_rule: String,
}

impl PipelineConfig {
    /// Resolves every setting: absent ones take their defaults, numbers are
    /// clamped into their ranges.
    pub fn from_settings(config: &Settings) -> (r: PipelineConfig)
        ensures
            r.bar_count as int == effective_bars(config.cava_bars),
            r.framerate as int == effective_framerate(config.cava_framerate),
            r.transform_rule@ == effective_sed(config.cava_sed),
    {
        PipelineConfig {
            bar_count: get_bars(config),
            framerate: get_framerate(config),
            transform_rule: get_sed(config),
        }
    }
}

/// Whatever was requested, or if nothing was, the effective bar count lies in
/// `[2, 16]` and the effective framerate in `[60, 360]`.
pub proof fn lemma_effective_values_in_range(bars: Option<i32>, framerate: Option<i32>)
    ensures
        MIN_BARS <= effective_bars(bars) <= MAX_BARS,
        MIN_FRAMERATE <= effective_framerate(framerate) <= MAX_FRAMERATE,
{
}

} // verus!
