//! Setting the wallpaper with feh.

use vstd::prelude::*;
use super::{BgType, CommandStep, StepSpec, WallpaperBackend, required_step, step_views};
use crate::text::{owned, str_eq, string_views};

verus! {

/// feh's background flag for a fill-mode name; unknown names fill.
pub open spec fn feh_flag(bgtype: Seq<char>) -> Seq<char> {
    if bgtype == "center"@ {
        "--bg-center"@
    } else if bgtype == "fill"@ {
        "--bg-fill"@
    } else if bgtype == "fit"@ {
        "--bg-max"@
    } else if bgtype == "stretch"@ {
        "--bg-scale"@
    } else if bgtype == "tile"@ {
        "--bg-tile"@
    } else {
        "--bg-fill"@
    }
}

/// `feh <flag> <wallpaper>`, which must start and succeed.
pub open spec fn feh_steps(w: Seq<char>, bgtype: Seq<char>) -> Seq<StepSpec> {
    seq![
        StepSpec {
            program: "feh"@,
            args: seq![feh_flag(bgtype), w],
            on_spawn_error: Some("Failed to execute feh. Is feh installed?"@),
            on_failure: Some("feh failed"@),
        },
    ]
}

/// feh's background flag for a fill-mode name.
pub fn feh_bg_flag(bgtype: &str) -> (r: &'static str)
    ensures
        r@ == feh_flag(bgtype@),
{
    if str_eq(bgtype, "center") {
        "--bg-center"
    } else if str_eq(bgtype, "fill") {
        "--bg-fill"
    } else if str_eq(bgtype, "fit") {
        "--bg-max"
    } else if str_eq(bgtype, "stretch") {
        "--bg-scale"
    } else if str_eq(bgtype, "tile") {
        "--bg-tile"
    } else {
        "--bg-fill"
    }
}

/// The command that sets `wallpaper` with feh for a fill-mode name.
pub fn feh_commands(wallpaper: &str, bgtype: &str) -> (r: Vec<CommandStep>)
    ensures
        step_views(r@) == feh_steps(wallpaper@, bgtype@),
{
    let mut args: Vec<String> = Vec::new();
    args.push(owned(feh_bg_flag(bgtype)));
    args.push(owned(wallpaper));
    assert(string_views(args@) =~= seq![feh_flag(bgtype@), wallpaper@]);
    let step = required_step(
        "feh",
        args,
        "Failed to execute feh. Is feh installed?",
        "feh failed",
    );
    let mut steps: Vec<CommandStep> = Vec::new();
    steps.push(step);
    assert(step_views(steps@) =~= feh_steps(wallpaper@, bgtype@));
    steps
}

/// Sets the wallpaper with `feh`.
pub struct FehBackend;

impl FehBackend {
    pub fn new() -> (r: Self)
        ensures
            r == FehBackend,
    {
        FehBackend
    }
}

impl Default for FehBackend {
    fn default() -> (r: Self)
        ensures
            r == FehBackend,
    {
        FehBackend::new()
    }
}

impl WallpaperBackend for FehBackend {
    fn name(&self) -> (r: &'static str)
        ensures
            r@ == "feh"@,
    {
        "feh"
    }

    fn commands(&self, wallpaper: &str, bgtype: BgType, resolution: &str, monitor: &str) -> (r:
        Vec<CommandStep>)
        ensures
            step_views(r@) == feh_steps(wallpaper@, bgtype.name()),
    {
        feh_commands(wallpaper, bgtype.as_str())
    }
}

} // verus!
