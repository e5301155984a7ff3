//! Setting the wallpaper through GNOME's settings.

use vstd::prelude::*;
use super::{BgType, CommandStep, StepSpec, WallpaperBackend, optional_step, required_step, step_views};
use crate::text::{joined, owned, string_views};

verus! {

/// Sets the wallpaper through `gsettings`.
pub struct GnomeBackend;

impl GnomeBackend {
    pub fn new() -> (r: Self)
        ensures
            r == GnomeBackend,
    {
        GnomeBackend
    }
}

impl Default for GnomeBackend {
    fn default() -> (r: Self)
        ensures
            r == GnomeBackend,
    {
        GnomeBackend::new()
    }
}

/// `gsettings set org.gnome.desktop.background picture-uri file://<wallpaper>`,
/// which must start and succeed, then the same for `picture-uri-dark`,
/// whose outcome does not matter.
pub open spec fn gnome_steps(w: Seq<char>) -> Seq<StepSpec> {
    seq![
        StepSpec {
            program: "gsettings"@,
            args: seq!["set"@, "org.gnome.desktop.background"@, "picture-uri"@, "file://"@ + w],
            on_spawn_error: Some("Failed to execute gsettings. Is gsettings installed?"@),
            on_failure: Some("gsettings failed"@),
        },
        StepSpec {
            program: "gsettings"@,
            args: seq!["set"@, "org.gnome.desktop.background"@, "picture-uri-dark"@, "file://"@ + w],
            on_spawn_error: None,
            on_failure: None,
        },
    ]
}

fn gsettings_args(key: &str, wallpaper: &str) -> (r: Vec<String>)
    ensures
        string_views(r@) == seq!["set"@, "org.gnome.desktop.background"@, key@, "file://"@ + wallpaper@],
{
    let mut args: Vec<String> = Vec::new();
    args.push(owned("set"));
    args.push(owned("org.gnome.desktop.background"));
    args.push(owned(key));
    args.push(joined("file://", wallpaper));
    assert(string_views(args@) =~= seq!["set"@, "org.gnome.desktop.background"@, key@, "file://"@ + wallpaper@]);
    args
}

impl WallpaperBackend for GnomeBackend {
    fn name(&self) -> (r: &'static str)
        ensures
            r@ == "gnome"@,
    {
        "gnome"
    }

    fn commands(&self, wallpaper: &str, bgtype: BgType, resolution: &str, monitor: &str) -> (r:
        Vec<CommandStep>)
        ensures
            step_views(r@) == gnome_steps(wallpaper@),
    {
        let first = required_step(
            "gsettings",
            gsettings_args("picture-uri", wallpaper),
            "Failed to execute gsettings. Is gsettings installed?",
            "gsettings failed",
        );
        let second = optional_step("gsettings", gsettings_args("picture-uri-dark", wallpaper));
        let mut steps: Vec<CommandStep> = Vec::new();
        steps.push(first);
        steps.push(second);
        assert(step_views(steps@) =~= gnome_steps(wallpaper@));
        steps
    }
}

} // verus!
