//! Setting the wallpaper on Sway.

use vstd::prelude::*;
use super::{BgType, CommandStep, StepSpec, WallpaperBackend, required_step, step_views};
use crate::text::{owned, string_views};

verus! {

/// Sets the wallpaper through `swaymsg`.
pub struct SwayBackend;

impl SwayBackend {
    pub fn new() -> (r: Self)
        ensures
            r == SwayBackend,
    {
        SwayBackend
    }
}

impl Default for SwayBackend {
    fn default() -> (r: Self)
        ensures
            r == SwayBackend,
    {
        SwayBackend::new()
    }
}

/// `swaymsg output * bg <wallpaper> <mode>`, the mode being the fill mode's
/// name; it must start and succeed.
pub open spec fn sway_steps(w: Seq<char>, b: BgType) -> Seq<StepSpec> {
    seq![
        StepSpec {
            program: "swaymsg"@,
            args: seq!["output"@, "*"@, "bg"@, w, b.name()],
            on_spawn_error: Some("Failed to execute swaymsg. Is Sway running?"@),
            on_failure: Some("swaymsg failed"@),
        },
    ]
}

impl WallpaperBackend for SwayBackend {
    fn name(&self) -> (r: &'static str)
        ensures
            r@ == "sway"@,
    {
        "sway"
    }

    fn commands(&self, wallpaper: &str, bgtype: BgType, resolution: &str, monitor: &str) -> (r:
        Vec<CommandStep>)
        ensures
            step_views(r@) == sway_steps(wallpaper@, bgtype),
    {
        let mut args: Vec<String> = Vec::new();
        args.push(owned("output"));
        args.push(owned("*"));
        args.push(owned("bg"));
        args.push(owned(wallpaper));
        args.push(owned(bgtype.as_str()));
        assert(string_views(args@) =~= seq!["output"@, "*"@, "bg"@, wallpaper@, bgtype.name()]);
        let step = required_step(
            "swaymsg",
            args,
            "Failed to execute swaymsg. Is Sway running?",
            "swaymsg failed",
        );
        let mut steps: Vec<CommandStep> = Vec::new();
        steps.push(step);
        assert(step_views(steps@) =~= sway_steps(wallpaper@, bgtype));
        steps
    }
}

} // verus!
