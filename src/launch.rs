//! What the supervisor hands the analyzer: its temporary configuration
//! artifact and the shell command that runs it through the glyph substitution.

use crate::config::PipelineConfig;
use crate::text::{decimal, int_text, replace_all, replaced};
use vstd::prelude::*;

verus! {

/// The shell that runs the composite analyzer command.
pub const SHELL: &'static str = "bash";

/// The fixed, process-wide path of the temporary analyzer configuration.
pub const TEMP_CONFIG_PATH: &'static str = "/tmp/hybrid_bar_cava.conf";

/// Placeholder for the framerate in the configuration template.
pub const FRAMERATE_SLOT: &'static str = "[framerate]";

/// Placeholder for the bar count in the configuration template.
pub const BARS_SLOT: &'static str = "[bars]";

/// The analyzer configuration: raw output of levels `0` to `7` on standard
/// output, bars separated by `;`, one frame per line.
pub const CONFIG_TEMPLATE: &'static str = "[general]
framerate = [framerate]
bars = [bars]

[output]
method = raw
raw_target = /dev/stdout
data_format = ascii
ascii_max_range = 7
bar_delimiter = 59
frame_delimiter = 10
";

/// The artifact text for a framerate and a bar count: the template with each
/// slot filled with the decimal text of its value.
pub open spec fn temp_config_text(framerate: int, bars: int) -> Seq<char> {
    replaced(
        replaced(CONFIG_TEMPLATE@, FRAMERATE_SLOT@, int_text(framerate)),
        BARS_SLOT@,
        int_text(bars),
    )
}

/// The shell command that runs the analyzer on the configuration at `path` and
/// pipes every line through `sed` with the substitution rule `sed`.
pub open spec fn launch_command_text(path: Seq<char>, sed: Seq<char>) -> Seq<char> {
    "cava -p "@ + path + " | sed -u '"@ + sed + "'"@
}

/// The contents of the temporary analyzer configuration for `config`.
pub fn render_temp_config(config: &PipelineConfig) -> (r: String)
    ensures
        r@ == temp_config_text(config.framerate as int, config.bar_count as int),
{
    proof {
        reveal_strlit("[framerate]");
        reveal_strlit("[bars]");
    }
    let framerate = decimal(config.framerate);
    let bars = decimal(config.bar_count);
    let with_framerate = replace_all(CONFIG_TEMPLATE, FRAMERATE_SLOT, framerate.as_str());
    replace_all(with_framerate.as_str(), BARS_SLOT, bars.as_str())
}

/// The composite command: the analyzer on `path`, piped through the
/// substitution rule `sed`.
pub fn launch_command(path: &str, sed: &str) -> (r: String)
    ensures
        r@ == launch_command_text(path@, sed@),
{
    let mut r = "cava -p ".to_string();
    r.append(path);
    r.append(" | sed -u '");
    r.append(sed);
    r.append("'");
    r
}

/// Guards the single active pipeline: the temporary artifact's path is shared,
/// so only the first start may go ahead.
pub struct StartGuard {
    started: bool,
}

impl StartGuard {
    /// Whether a pipeline has been started under this guard.
    pub closed spec fn is_started(&self) -> bool {
        self.started
    }

    /// A guard under which nothing has started yet.
    pub fn new() -> (r: StartGuard)
        ensures
            !r.is_started(),
    {
        StartGuard { started: false }
    }

    /// Claims the start: true only for the first claim.
    pub fn try_start(&mut self) -> (r: bool)
        ensures
            r == !old(self).is_started(),
            final(self).is_started(),
    {
        let first = !self.started;
        self.started = true;
        first
    }

    /// Whether a pipeline has been started under this guard.
    pub fn has_started(&self) -> (r: bool)
        ensures
            r == self.is_started(),
    {
        self.started
    }
}

} // verus!
