//! Setting the wallpaper on Hyprland through hyprpaper.

use vstd::prelude::*;
use super::{BgType, CommandStep, StepSpec, WallpaperBackend, optional_step, required_step, step_views};
use crate::text::{owned, string_views};

verus! {

/// Sets the wallpaper through `hyprctl hyprpaper`.
pub struct HyprlandBackend;

impl HyprlandBackend {
    pub fn new() -> (r: Self)
        ensures
            r == HyprlandBackend,
    {
        HyprlandBackend
    }
}

impl Default for HyprlandBackend {
    fn default() -> (r: Self)
        ensures
            r == HyprlandBackend,
    {
        HyprlandBackend::new()
    }
}

/// `hyprctl hyprpaper preload <wallpaper>`, which must start and succeed,
/// then `hyprctl hyprpaper wallpaper , <wallpaper>`, whose outcome does not
/// matter.
pub open spec fn hyprland_steps(w: Seq<char>) -> Seq<StepSpec> {
    seq![
        StepSpec {
            program: "hyprctl"@,
            args: seq!["hyprpaper"@, "preload"@, w],
            on_spawn_error: Some("Failed to execute hyprctl. Is Hyprland running?"@),
            on_failure: Some("hyprctl preload failed"@),
        },
        StepSpec {
            program: "hyprctl"@,
            args: seq!["hyprpaper"@, "wallpaper"@, ","@, w],
            on_spawn_error: None,
            on_failure: None,
        },
    ]
}

impl WallpaperBackend for HyprlandBackend {
    fn name(&self) -> (r: &'static str)
        ensures
            r@ == "hyprland"@,
    {
        "hyprland"
    }

    fn commands(&self, wallpaper: &str, bgtype: BgType, resolution: &str, monitor: &str) -> (r:
        Vec<CommandStep>)
        ensures
            step_views(r@) == hyprland_steps(wallpaper@),
    {
        let mut preload: Vec<String> = Vec::new();
        preload.push(owned("hyprpaper"));
        preload.push(owned("preload"));
        preload.push(owned(wallpaper));
        assert(string_views(preload@) =~= seq!["hyprpaper"@, "preload"@, wallpaper@]);
        let mut set: Vec<String> = Vec::new();
        set.push(owned("hyprpaper"));
        set.push(owned("wallpaper"));
        set.push(owned(","));
        set.push(owned(wallpaper));
        assert(string_views(set@) =~= seq!["hyprpaper"@, "wallpaper"@, ","@, wallpaper@]);
        let first = required_step(
            "hyprctl",
            preload,
            "Failed to execute hyprctl. Is Hyprland running?",
            "hyprctl preload failed",
        );
        let second = optional_step("hyprctl", set);
        let mut steps: Vec<CommandStep> = Vec::new();
        steps.push(first);
        steps.push(second);
        assert(step_views(steps@) =~= hyprland_steps(wallpaper@));
        steps
    }
}

} // verus!
