//! Setting the wallpaper on XFCE.

use vstd::prelude::*;
use super::{BgType, CommandStep, StepSpec, WallpaperBackend, optional_step, step_views};
use crate::text::{decimal, owned, push_decimal, string_views};

verus! {

/// Sets the wallpaper through `xfconf-query`.
pub struct XfceBackend;

impl XfceBackend {
    pub fn new() -> (r: Self)
        ensures
            r == XfceBackend,
    {
        XfceBackend
    }
}

impl Default for XfceBackend {
    fn default() -> (r: Self)
        ensures
            r == XfceBackend,
    {
        XfceBackend::new()
    }
}

/// XFCE's `image-style` number for a fill mode.
pub open spec fn xfce_style(b: BgType) -> nat {
    match b {
        BgType::Center => 1,
        BgType::Fill => 5,
        BgType::Fit => 3,
        BgType::Stretch => 2,
        BgType::Tile => 0,
    }
}

/// Sets `last-image` to the wallpaper (the program must start; its exit
/// status is not checked), then `image-style` to the fill mode's number
/// (outcome ignored).
pub open spec fn xfce_steps(w: Seq<char>, b: BgType) -> Seq<StepSpec> {
    seq![
        StepSpec {
            program: "xfconf-query"@,
            args: seq![
                "-c"@,
                "xfce4-desktop"@,
                "-p"@,
                "/backdrop/screen0/monitor0/workspace0/last-image"@,
                "-s"@,
                w,
            ],
            on_spawn_error: Some("Failed to execute xfconf-query. Is XFCE running?"@),
            on_failure: None,
        },
        StepSpec {
            program: "xfconf-query"@,
            args: seq![
                "-c"@,
                "xfce4-desktop"@,
                "-p"@,
                "/backdrop/screen0/monitor0/workspace0/image-style"@,
                "-s"@,
                decimal(xfce_style(b)),
            ],
            on_spawn_error: None,
            on_failure: None,
        },
    ]
}

/// XFCE's `image-style` number for a fill mode.
pub fn image_style(b: BgType) -> (r: u64)
    ensures
        r == xfce_style(b),
{
    match b {
        BgType::Center => 1,
        BgType::Fill => 5,
        BgType::Fit => 3,
        BgType::Stretch => 2,
        BgType::Tile => 0,
    }
}

fn xfconf_args(property: &str, value: String) -> (r: Vec<String>)
    ensures
        string_views(r@) == seq!["-c"@, "xfce4-desktop"@, "-p"@, property@, "-s"@, value@],
{
    let mut args: Vec<String> = Vec::new();
    args.push(owned("-c"));
    args.push(owned("xfce4-desktop"));
    args.push(owned("-p"));
    args.push(owned(property));
    args.push(owned("-s"));
    let ghost v = value@;
    args.push(value);
    assert(string_views(args@) =~= seq!["-c"@, "xfce4-desktop"@, "-p"@, property@, "-s"@, v]);
    args
}

impl WallpaperBackend for XfceBackend {
    fn name(&self) -> (r: &'static str)
        ensures
            r@ == "xfce"@,
    {
        "xfce"
    }

    fn commands(&self, wallpaper: &str, bgtype: BgType, resolution: &str, monitor: &str) -> (r:
        Vec<CommandStep>)
        ensures
            step_views(r@) == xfce_steps(wallpaper@, bgtype),
    {
        let mut style = String::new();
        push_decimal(&mut style, image_style(bgtype));
        assert(style@ =~= decimal(xfce_style(bgtype)));
        let first = CommandStep {
            program: owned("xfconf-query"),
            args: xfconf_args("/backdrop/screen0/monitor0/workspace0/last-image", owned(wallpaper)),
            on_spawn_error: Some(owned("Failed to execute xfconf-query. Is XFCE running?")),
            on_failure: None,
        };
        let second = optional_step(
            "xfconf-query",
            xfconf_args("/backdrop/screen0/monitor0/workspace0/image-style", style),
        );
        let mut steps: Vec<CommandStep> = Vec::new();
        steps.push(first);
        steps.push(second);
        assert(step_views(steps@) =~= xfce_steps(wallpaper@, bgtype));
        steps
    }
}

} // verus!
