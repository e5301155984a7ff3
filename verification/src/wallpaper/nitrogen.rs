//! Setting the wallpaper with nitrogen.

use vstd::prelude::*;
use super::{BgType, CommandStep, StepSpec, WallpaperBackend, required_step, step_views};
use crate::text::{owned, string_views};

verus! {

/// Sets the wallpaper with `nitrogen`.
pub struct NitrogenBackend;

impl NitrogenBackend {
    pub fn new() -> (r: Self)
        ensures
            r == NitrogenBackend,
    {
        NitrogenBackend
    }
}

impl Default for NitrogenBackend {
    fn default() -> (r: Self)
        ensures
            r == NitrogenBackend,
    {
        NitrogenBackend::new()
    }
}

/// nitrogen's option for a fill mode.
pub open spec fn nitrogen_mode(b: BgType) -> Seq<char> {
    match b {
        BgType::Center => "--set-centered"@,
        BgType::Fill => "--set-zoom-fill"@,
        BgType::Fit => "--set-zoom"@,
        BgType::Stretch => "--set-scaled"@,
        BgType::Tile => "--set-tiled"@,
    }
}

/// The option for a fill mode.
pub fn nitrogen_option(b: BgType) -> (r: &'static str)
    ensures
        r@ == nitrogen_mode(b),
{
    match b {
        BgType::Center => "--set-centered",
        BgType::Fill => "--set-zoom-fill",
        BgType::Fit => "--set-zoom",
        BgType::Stretch => "--set-scaled",
        BgType::Tile => "--set-tiled",
    }
}

/// `nitrogen <mode option> <wallpaper>`, which must start and succeed.
pub open spec fn nitrogen_steps(w: Seq<char>, b: BgType) -> Seq<StepSpec> {
    seq![
        StepSpec {
            program: "nitrogen"@,
            args: seq![nitrogen_mode(b), w],
            on_spawn_error: Some("Failed to execute nitrogen. Is nitrogen installed?"@),
            on_failure: Some("nitrogen failed"@),
        },
    ]
}

impl WallpaperBackend for NitrogenBackend {
    fn name(&self) -> (r: &'static str)
        ensures
            r@ == "nitrogen"@,
    {
        "nitrogen"
    }

    fn commands(&self, wallpaper: &str, bgtype: BgType, resolution: &str, monitor: &str) -> (r:
        Vec<CommandStep>)
        ensures
            step_views(r@) == nitrogen_steps(wallpaper@, bgtype),
    {
        let mut args: Vec<String> = Vec::new();
        args.push(owned(nitrogen_option(bgtype)));
        args.push(owned(wallpaper));
        assert(string_views(args@) =~= seq![nitrogen_mode(bgtype), wallpaper@]);
        let step = required_step(
            "nitrogen",
            args,
            "Failed to execute nitrogen. Is nitrogen installed?",
            "nitrogen failed",
        );
        let mut steps: Vec<CommandStep> = Vec::new();
        steps.push(step);
        assert(step_views(steps@) =~= nitrogen_steps(wallpaper@, bgtype));
        steps
    }
}

} // verus!
