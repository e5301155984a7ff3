//! Setting the wallpaper with a user-supplied shell command.

use vstd::prelude::*;
use super::{BgType, CommandStep, StepSpec, WallpaperBackend, required_step, step_views};
use crate::text::{chars_of, contains, lemma_replace_absent, owned, replace_all, replace_chars, string_of, string_views};

verus! {

/// Runs a shell command template to set the wallpaper.
pub struct CustomBackend {
    /// The template; `{wallpaper}`, `{bgtype}`, `{resolution}` and `{monitor}`
    /// in it are replaced before it runs.
    pub command: String,
}

impl CustomBackend {
    pub fn new(command: String) -> (r: Self)
        ensures
            r.command@ == command@,
    {
        CustomBackend { command }
    }
}

/// The template with `{wallpaper}`, then `{bgtype}`, then `{resolution}`,
/// then `{monitor}` replaced, each replacement applied to the result of the
/// one before.
pub open spec fn expand_template(
    template: Seq<char>,
    wallpaper: Seq<char>,
    bgtype: Seq<char>,
    resolution: Seq<char>,
    monitor: Seq<char>,
) -> Seq<char> {
    replace_all(
        replace_all(
            replace_all(replace_all(template, "{wallpaper}"@, wallpaper), "{bgtype}"@, bgtype),
            "{resolution}"@,
            resolution,
        ),
        "{monitor}"@,
        monitor,
    )
}

/// `sh -c <expanded template>`, which must start and succeed.
pub open spec fn custom_steps(command: Seq<char>) -> Seq<StepSpec> {
    seq![
        StepSpec {
            program: "sh"@,
            args: seq!["-c"@, command],
            on_spawn_error: Some("Custom backend command failed"@),
            on_failure: Some("Custom backend failed"@),
        },
    ]
}

/// Fills in a command template.
pub fn expand_command(
    template: &str,
    wallpaper: &str,
    bgtype: BgType,
    resolution: &str,
    monitor: &str,
) -> (r: String)
    ensures
        r@ == expand_template(template@, wallpaper@, bgtype.name(), resolution@, monitor@),
{
    let t = chars_of(template);
    let w = chars_of(wallpaper);
    let b = chars_of(bgtype.as_str());
    let res = chars_of(resolution);
    let p_wallpaper = chars_of("{wallpaper}");
    let p_bgtype = chars_of("{bgtype}");
    let m = chars_of(monitor);
    let p_resolution = chars_of("{resolution}");
    let p_monitor = chars_of("{monitor}");
    proof {
        reveal_strlit("{wallpaper}");
        reveal_strlit("{bgtype}");
        reveal_strlit("{resolution}");
        reveal_strlit("{monitor}");
    }
    let step1 = replace_chars(t.as_slice(), p_wallpaper.as_slice(), w.as_slice());
    let step2 = replace_chars(step1.as_slice(), p_bgtype.as_slice(), b.as_slice());
    let step3 = replace_chars(step2.as_slice(), p_resolution.as_slice(), res.as_slice());
    let step4 = replace_chars(step3.as_slice(), p_monitor.as_slice(), m.as_slice());
    string_of(step4.as_slice())
}

impl WallpaperBackend for CustomBackend {
    fn name(&self) -> (r: &'static str)
        ensures
            r@ == "custom"@,
    {
        "custom"
    }

    fn commands(&self, wallpaper: &str, bgtype: BgType, resolution: &str, monitor: &str) -> (r:
        Vec<CommandStep>)
        ensures
            step_views(r@) == custom_steps(
                expand_template(self.command@, wallpaper@, bgtype.name(), resolution@, monitor@),
            ),
    {
        let expanded = expand_command(
            self.command.as_str(),
            wallpaper,
            bgtype,
            resolution,
            monitor,
        );
        let ghost e = expanded@;
        let mut args: Vec<String> = Vec::new();
        args.push(owned("-c"));
        args.push(expanded);
        assert(string_views(args@) =~= seq!["-c"@, e]);
        let step = required_step(
            "sh",
            args,
            "Custom backend command failed",
            "Custom backend failed",
        );
        let mut steps: Vec<CommandStep> = Vec::new();
        steps.push(step);
        assert(step_views(steps@) =~= custom_steps(e));
        steps
    }

    fn uses_resolution(&self) -> (r: bool)
        ensures
            r,
    {
        true
    }

    fn is_available(&self) -> (r: bool)
        ensures
            r,
    {
        true
    }
}


/// A template without placeholders runs as it is written.
pub proof fn template_without_placeholders(
    template: Seq<char>,
    wallpaper: Seq<char>,
    bgtype: Seq<char>,
    resolution: Seq<char>,
    monitor: Seq<char>,
)
    requires
        !contains(template, "{wallpaper}"@),
        !contains(template, "{bgtype}"@),
        !contains(template, "{resolution}"@),
        !contains(template, "{monitor}"@),
    ensures
        expand_template(template, wallpaper, bgtype, resolution, monitor) == template,
{
    reveal_strlit("{wallpaper}");
    reveal_strlit("{bgtype}");
    reveal_strlit("{resolution}");
    reveal_strlit("{monitor}");
    lemma_replace_absent(template, "{wallpaper}"@, wallpaper);
    lemma_replace_absent(template, "{bgtype}"@, bgtype);
    lemma_replace_absent(template, "{resolution}"@, resolution);
    lemma_replace_absent(template, "{monitor}"@, monitor);
}

} // verus!
