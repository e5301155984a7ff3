//! Setting the wallpaper on KDE Plasma.

use vstd::prelude::*;
use super::{BgType, CommandStep, StepSpec, WallpaperBackend, required_step, step_views};
use crate::text::{owned, string_views};

verus! {

/// Sets the wallpaper through a Plasma shell script run with `qdbus`.
pub struct KdeBackend;

impl KdeBackend {
    pub fn new() -> (r: Self)
        ensures
            r == KdeBackend,
    {
        KdeBackend
    }
}

impl Default for KdeBackend {
    fn default() -> (r: Self)
        ensures
            r == KdeBackend,
    {
        KdeBackend::new()
    }
}

/// The Plasma script's text before the wallpaper path.
pub open spec fn script_head() -> Seq<char> {
    "\n            var allPlasmoids = desktops();\n            for (var i = 0; i < allPlasmoids.length; i++) {\n                d = allPlasmoids[i];\n                d.wallpaperPlugin = \"org.kde.image\";\n                d.currentConfigGroup = Array(\"Wallpaper\", \"org.kde.image\", \"General\");\n                d.writeConfig(\"Image\", \"file://"@
}

/// The Plasma script's text after the wallpaper path.
pub open spec fn script_tail() -> Seq<char> {
    "\");\n            }\n            "@
}

/// The script that points every desktop's image plugin at `file://<w>`.
pub open spec fn plasma_script(w: Seq<char>) -> Seq<char> {
    script_head() + w + script_tail()
}

/// `qdbus org.kde.plasmashell /PlasmaShell org.kde.PlasmaShell.evaluateScript
/// <script>`, which must start and succeed; the fill mode is not used.
pub open spec fn kde_steps(w: Seq<char>) -> Seq<StepSpec> {
    seq![
        StepSpec {
            program: "qdbus"@,
            args: seq![
                "org.kde.plasmashell"@,
                "/PlasmaShell"@,
                "org.kde.PlasmaShell.evaluateScript"@,
                plasma_script(w),
            ],
            on_spawn_error: Some("Failed to execute qdbus. Is KDE/Plasma running?"@),
            on_failure: Some("qdbus failed"@),
        },
    ]
}

/// The Plasma script for a wallpaper.
pub fn make_plasma_script(wallpaper: &str) -> (r: String)
    ensures
        r@ == plasma_script(wallpaper@),
{
    owned("\n            var allPlasmoids = desktops();\n            for (var i = 0; i < allPlasmoids.length; i++) {\n                d = allPlasmoids[i];\n                d.wallpaperPlugin = \"org.kde.image\";\n                d.currentConfigGroup = Array(\"Wallpaper\", \"org.kde.image\", \"General\");\n                d.writeConfig(\"Image\", \"file://").concat(
        wallpaper,
    ).concat("\");\n            }\n            ")
}

impl WallpaperBackend for KdeBackend {
    fn name(&self) -> (r: &'static str)
        ensures
            r@ == "kde"@,
    {
        "kde"
    }

    fn commands(&self, wallpaper: &str, bgtype: BgType, resolution: &str, monitor: &str) -> (r:
        Vec<CommandStep>)
        ensures
            step_views(r@) == kde_steps(wallpaper@),
    {
        let mut args: Vec<String> = Vec::new();
        args.push(owned("org.kde.plasmashell"));
        args.push(owned("/PlasmaShell"));
        args.push(owned("org.kde.PlasmaShell.evaluateScript"));
        args.push(make_plasma_script(wallpaper));
        assert(string_views(args@) =~= seq![
            "org.kde.plasmashell"@,
            "/PlasmaShell"@,
            "org.kde.PlasmaShell.evaluateScript"@,
            plasma_script(wallpaper@),
        ]);
        let step = required_step(
            "qdbus",
            args,
            "Failed to execute qdbus. Is KDE/Plasma running?",
            "qdbus failed",
        );
        let mut steps: Vec<CommandStep> = Vec::new();
        steps.push(step);
        assert(step_views(steps@) =~= kde_steps(wallpaper@));
        steps
    }
}

} // verus!
