//! The decisions of the command-line program: which source, resolution,
//! backend and fill mode apply (the command line before the configuration
//! file), which backend sets the wallpaper, and the steps of `set`.

use vstd::prelude::*;
use crate::text::{all_ascii, ascii_lower, joined, opt_view, owned, str_eq, to_lowercase, unicode_lowercase};
use crate::wallpaper::{BgType, Backend, CommandStep, WallpaperBackend, image_daemon_steps, step_views};
use crate::wallpaper::auto::{PROBE_COUNT, probe_backend, probe_program};
use crate::wallpaper::aww::AwwBackend;
use crate::wallpaper::awww::AwwwBackend;
use crate::wallpaper::custom::{CustomBackend, custom_steps, expand_template};
use crate::wallpaper::feh::{FehBackend, feh_steps};
use crate::wallpaper::gnome::{GnomeBackend, gnome_steps};
use crate::wallpaper::hyprland::{HyprlandBackend, hyprland_steps};
use crate::wallpaper::kde::{KdeBackend, kde_steps};
use crate::wallpaper::nitrogen::{NitrogenBackend, nitrogen_steps};
use crate::wallpaper::sway::{SwayBackend, sway_steps};
use crate::wallpaper::swww::SwwwBackend;
use crate::wallpaper::xfce::{XfceBackend, xfce_steps};

verus! {

/// Where a wallpaper comes from.
#[derive(Debug, Clone, Copy, PartialEq, Eq, Structural)]
pub enum Source {
    Picsum,
    Unsplash,
    Reddit,
    Deviantart,
    Local,
}

impl Source {
    /// The source a lower-case name selects; unknown names select picsum.
    pub open spec fn named(s: Seq<char>) -> Source {
        if s == "unsplash"@ {
            Source::Unsplash
        } else if s == "reddit"@ {
            Source::Reddit
        } else if s == "deviantart"@ {
            Source::Deviantart
        } else if s == "local"@ {
            Source::Local
        } else {
            Source::Picsum
        }
    }

    /// The source a name selects, ignoring case; unknown names select picsum.
    pub fn from_str(s: &str) -> (r: Source)
        ensures
            r == Source::named(unicode_lowercase(s@)),
            all_ascii(s@) ==> r == Source::named(ascii_lower(s@)),
    {
        let lower = to_lowercase(s);
        let l = lower.as_str();
        if str_eq(l, "unsplash") {
            Source::Unsplash
        } else if str_eq(l, "reddit") {
            Source::Reddit
        } else if str_eq(l, "deviantart") {
            Source::Deviantart
        } else if str_eq(l, "local") {
            Source::Local
        } else {
            Source::Picsum
        }
    }
}

/// The source used: the one given on the command line, else the one of the
/// configuration file (read as [`Source::from_str`] reads it), else picsum.
pub fn chosen_source(arg: Option<Source>, configured: Option<&str>) -> (r: Source)
    ensures
        r == match arg {
            Some(a) => a,
            None => match configured {
                Some(c) => Source::named(unicode_lowercase(c@)),
                None => Source::Picsum,
            },
        },
{
    match arg {
        Some(a) => a,
        None => match configured {
            Some(c) => Source::from_str(c),
            None => Source::Picsum,
        },
    }
}

/// The backend asked for: the one given on the command line, else the one of
/// the configuration file (read as [`Backend::from_str`] reads it), else
/// detection.
pub fn chosen_backend(arg: Option<Backend>, configured: Option<&str>) -> (r: Backend)
    ensures
        r == match arg {
            Some(a) => a,
            None => match configured {
                Some(c) => Backend::named(unicode_lowercase(c@)),
                None => Backend::Auto,
            },
        },
{
    match arg {
        Some(a) => a,
        None => match configured {
            Some(c) => Backend::from_str(c),
            None => Backend::Auto,
        },
    }
}

/// The fill mode: the one given on the command line, else the one of the
/// configuration file (read as [`BgType::from_str`] reads it), else fill.
pub fn chosen_bgtype(arg: Option<BgType>, configured: Option<&str>) -> (r: BgType)
    ensures
        r == match arg {
            Some(a) => a,
            None => match configured {
                Some(c) => BgType::named(unicode_lowercase(c@)),
                None => BgType::Fill,
            },
        },
{
    match arg {
        Some(a) => a,
        None => match configured {
            Some(c) => BgType::from_str(c),
            None => BgType::Fill,
        },
    }
}

/// The resolution a text asks for: none for `auto` or no text, so that it is
/// detected.
pub open spec fn requested(text: Option<Seq<char>>) -> Option<Seq<char>> {
    match text {
        Some(t) => if t == "auto"@ {
            None
        } else {
            Some(t)
        },
        None => None,
    }
}

/// The resolution asked for, the command line's before the configuration
/// file's: `None` when the one that applies is `auto` or neither gives one,
/// so that it is detected.
pub fn chosen_resolution(arg: Option<&str>, configured: Option<&str>) -> (r: Option<String>)
    ensures
        opt_view(r) == requested(match arg {
            Some(a) => Some(a@),
            None => match configured {
                Some(c) => Some(c@),
                None => None,
            },
        }),
{
    match arg {
        Some(a) => requested_resolution(Some(a)),
        None => requested_resolution(configured),
    }
}

/// The folder the local source reads: the configured `local_dir`, or an
/// error when none is configured.
pub fn local_folder(local_dir: Option<&str>) -> (r: Result<String, String>)
    ensures
        match local_dir {
            Some(d) => r matches Ok(s) && s@ == d@,
            None => r matches Err(m) && m@ == "No local folder configured: set local_dir under [wallpaper]"@,
        },
{
    match local_dir {
        Some(d) => Ok(owned(d)),
        None => Err(owned("No local folder configured: set local_dir under [wallpaper]")),
    }
}

/// The resolution given on the command line, unless it is `auto` (or
/// missing), in which case it is detected.
pub fn requested_resolution(arg: Option<&str>) -> (r: Option<String>)
    ensures
        match arg {
            Some(a) => if a@ == "auto"@ {
                r is None
            } else {
                r matches Some(s) && s@ == a@
            },
            None => r is None,
        },
{
    match arg {
        Some(a) => if str_eq(a, "auto") {
            None
        } else {
            Some(owned(a))
        },
        None => None,
    }
}

/// Whether colours are generated after setting the wallpaper: unless turned
/// off or only previewing.
pub fn set_generates_colors(no_colors: bool, preview: bool) -> (r: bool)
    ensures
        r == (!no_colors && !preview),
{
    !no_colors && !preview
}

/// The wallpaper `--reload` uses: the one recorded last, when there is one
/// and it still exists; otherwise the error that ends the command.
pub fn reload_target(last: Option<&str>, exists: bool) -> (r: Result<String, String>)
    ensures
        match last {
            None => r matches Err(m) && m@ == "No previous wallpaper found. Run without --reload first."@,
            Some(p) => if exists {
                r matches Ok(s) && s@ == p@
            } else {
                r matches Err(m) && m@ == "Last wallpaper not found: "@ + p@
            },
        },
{
    match last {
        None => Err(owned("No previous wallpaper found. Run without --reload first.")),
        Some(p) => if exists {
            Ok(owned(p))
        } else {
            Err(joined("Last wallpaper not found: ", p))
        },
    }
}

/// What `set` does once the wallpaper is obtained and recorded.
#[derive(Debug, Clone, Copy, PartialEq, Eq, Structural)]
pub enum SetStep {
    /// Set the wallpaper with the backend.
    SetWallpaper,
    /// Generate and apply a colour scheme from the wallpaper.
    GenerateColors,
    /// Show the colour scheme without applying it.
    PreviewColors,
}

/// The steps of `set`, in order: setting the wallpaper unless previewing,
/// then generating colours unless turned off on the command line or in the
/// configuration, or previewing, then showing the colours when previewing.
pub open spec fn set_plan(preview: bool, no_colors: bool, colors_enabled: bool) -> Seq<SetStep> {
    if preview {
        seq![SetStep::PreviewColors]
    } else if no_colors || !colors_enabled {
        seq![SetStep::SetWallpaper]
    } else {
        seq![SetStep::SetWallpaper, SetStep::GenerateColors]
    }
}

/// The steps `set` takes after obtaining the wallpaper; `colors_enabled` is
/// the `enabled` setting of `[colors]`.
pub fn set_steps(preview: bool, no_colors: bool, colors_enabled: bool) -> (r: Vec<SetStep>)
    ensures
        r@ == set_plan(preview, no_colors, colors_enabled),
{
    let mut steps: Vec<SetStep> = Vec::new();
    if !preview {
        steps.push(SetStep::SetWallpaper);
    }
    if colors_enabled && set_generates_colors(no_colors, preview) {
        steps.push(SetStep::GenerateColors);
    }
    if preview {
        steps.push(SetStep::PreviewColors);
    }
    assert(steps@ =~= set_plan(preview, no_colors, colors_enabled));
    steps
}

/// Whether a failing step ends `set`: a failure to generate colours is
/// reported and `set` goes on; every other failure ends it.
pub fn step_failure_ends_set(step: SetStep) -> (r: bool)
    ensures
        r == (step != SetStep::GenerateColors),
{
    match step {
        SetStep::GenerateColors => false,
        _ => true,
    }
}

/// The command template of the custom backend: the one given on the command
/// line, else the one of the configuration file, else
/// `feh --bg-{bgtype} {wallpaper}`.
pub open spec fn custom_template(custom_cmd: Option<&str>, config_cmd: Option<&str>) -> Seq<char> {
    match custom_cmd {
        Some(c) => c@,
        None => match config_cmd {
            Some(c) => c@,
            None => "feh --bg-{bgtype} {wallpaper}"@,
        },
    }
}

/// The backend in use: the one asked for, or the detected one for `auto`.
pub open spec fn resolved_backend(requested: Backend, detected: Option<Backend>) -> Backend {
    if requested == Backend::Auto {
        detected->0
    } else {
        requested
    }
}

/// A backend ready to set the wallpaper.
pub enum SelectedBackend {
    Feh(FehBackend),
    Nitrogen(NitrogenBackend),
    Gnome(GnomeBackend),
    Kde(KdeBackend),
    Xfce(XfceBackend),
    Sway(SwayBackend),
    Hyprland(HyprlandBackend),
    Aww(AwwBackend),
    Awww(AwwwBackend),
    Swww(SwwwBackend),
    Custom(CustomBackend),
}

impl SelectedBackend {
    /// Which backend this is.
    pub open spec fn kind(self) -> Backend {
        match self {
            SelectedBackend::Feh(_) => Backend::Feh,
            SelectedBackend::Nitrogen(_) => Backend::Nitrogen,
            SelectedBackend::Gnome(_) => Backend::Gnome,
            SelectedBackend::Kde(_) => Backend::Kde,
            SelectedBackend::Xfce(_) => Backend::Xfce,
            SelectedBackend::Sway(_) => Backend::Sway,
            SelectedBackend::Hyprland(_) => Backend::Hyprland,
            SelectedBackend::Aww(_) => Backend::Aww,
            SelectedBackend::Awww(_) => Backend::Awww,
            SelectedBackend::Swww(_) => Backend::Swww,
            SelectedBackend::Custom(_) => Backend::Custom,
        }
    }
}

/// Makes the backend that sets the wallpaper. `custom_cmd` is the template
/// given on the command line and `config_cmd` the one of the configuration
/// file; for `auto`, `detected` is the backend detection chose.
pub fn create_backend(
    backend: Backend,
    custom_cmd: Option<&str>,
    config_cmd: Option<&str>,
    detected: Option<Backend>,
) -> (r: SelectedBackend)
    requires
        backend == Backend::Auto ==> (detected matches Some(d) && d != Backend::Auto),
    ensures
        r.kind() == resolved_backend(backend, detected),
        r matches SelectedBackend::Custom(c) ==> c.command@ == custom_template(custom_cmd, config_cmd),
{
    let chosen = match backend {
        Backend::Auto => match detected {
            Some(d) => d,
            None => Backend::Feh,
        },
        other => other,
    };
    match chosen {
        Backend::Feh => SelectedBackend::Feh(FehBackend::new()),
        Backend::Nitrogen => SelectedBackend::Nitrogen(NitrogenBackend::new()),
        Backend::Gnome => SelectedBackend::Gnome(GnomeBackend::new()),
        Backend::Kde => SelectedBackend::Kde(KdeBackend::new()),
        Backend::Xfce => SelectedBackend::Xfce(XfceBackend::new()),
        Backend::Sway => SelectedBackend::Sway(SwayBackend::new()),
        Backend::Hyprland => SelectedBackend::Hyprland(HyprlandBackend::new()),
        Backend::Aww => SelectedBackend::Aww(AwwBackend::new()),
        Backend::Awww => SelectedBackend::Awww(AwwwBackend::new()),
        Backend::Swww => SelectedBackend::Swww(SwwwBackend::new()),
        Backend::Custom | Backend::Auto => {
            let template = match custom_cmd {
                Some(c) => owned(c),
                None => match config_cmd {
                    Some(c) => owned(c),
                    None => owned("feh --bg-{bgtype} {wallpaper}"),
                },
            };
            SelectedBackend::Custom(CustomBackend::new(template))
        },
    }
}

/// The commands of the selected backend.
pub open spec fn selected_steps(
    b: SelectedBackend,
    w: Seq<char>,
    bgtype: BgType,
    resolution: Seq<char>,
    monitor: Seq<char>,
) -> Seq<crate::wallpaper::StepSpec> {
    match b {
        SelectedBackend::Feh(_) => feh_steps(w, bgtype.name()),
        SelectedBackend::Nitrogen(_) => nitrogen_steps(w, bgtype),
        SelectedBackend::Gnome(_) => gnome_steps(w),
        SelectedBackend::Kde(_) => kde_steps(w),
        SelectedBackend::Xfce(_) => xfce_steps(w, bgtype),
        SelectedBackend::Sway(_) => sway_steps(w, bgtype),
        SelectedBackend::Hyprland(_) => hyprland_steps(w),
        SelectedBackend::Aww(_) => image_daemon_steps("aww"@, w, bgtype),
        SelectedBackend::Awww(_) => image_daemon_steps("awww"@, w, bgtype),
        SelectedBackend::Swww(_) => image_daemon_steps("swww"@, w, bgtype),
        SelectedBackend::Custom(c) => custom_steps(
            expand_template(c.command@, w, bgtype.name(), resolution, monitor),
        ),
    }
}

impl WallpaperBackend for SelectedBackend {
    fn name(&self) -> (r: &'static str)
        ensures
            r@ == self.kind().name(),
    {
        match self {
            SelectedBackend::Feh(b) => b.name(),
            SelectedBackend::Nitrogen(b) => b.name(),
            SelectedBackend::Gnome(b) => b.name(),
            SelectedBackend::Kde(b) => b.name(),
            SelectedBackend::Xfce(b) => b.name(),
            SelectedBackend::Sway(b) => b.name(),
            SelectedBackend::Hyprland(b) => b.name(),
            SelectedBackend::Aww(b) => b.name(),
            SelectedBackend::Awww(b) => b.name(),
            SelectedBackend::Swww(b) => b.name(),
            SelectedBackend::Custom(b) => b.name(),
        }
    }

    fn commands(&self, wallpaper: &str, bgtype: BgType, resolution: &str, monitor: &str) -> (r:
        Vec<CommandStep>)
        ensures
            step_views(r@) == selected_steps(*self, wallpaper@, bgtype, resolution@, monitor@),
    {
        match self {
            SelectedBackend::Feh(b) => b.commands(wallpaper, bgtype, resolution, monitor),
            SelectedBackend::Nitrogen(b) => b.commands(wallpaper, bgtype, resolution, monitor),
            SelectedBackend::Gnome(b) => b.commands(wallpaper, bgtype, resolution, monitor),
            SelectedBackend::Kde(b) => b.commands(wallpaper, bgtype, resolution, monitor),
            SelectedBackend::Xfce(b) => b.commands(wallpaper, bgtype, resolution, monitor),
            SelectedBackend::Sway(b) => b.commands(wallpaper, bgtype, resolution, monitor),
            SelectedBackend::Hyprland(b) => b.commands(wallpaper, bgtype, resolution, monitor),
            SelectedBackend::Aww(b) => b.commands(wallpaper, bgtype, resolution, monitor),
            SelectedBackend::Awww(b) => b.commands(wallpaper, bgtype, resolution, monitor),
            SelectedBackend::Swww(b) => b.commands(wallpaper, bgtype, resolution, monitor),
            SelectedBackend::Custom(b) => b.commands(wallpaper, bgtype, resolution, monitor),
        }
    }

    fn uses_resolution(&self) -> (r: bool)
        ensures
            r == (self.kind() == Backend::Custom),
    {
        match self {
            SelectedBackend::Custom(_) => true,
            _ => false,
        }
    }

    fn is_available(&self) -> (r: bool)
        ensures
            r,
    {
        true
    }
}


/// Detection picks the backend whose setter runs the program that answered:
/// for every probe position and every setter of the backend that position
/// selects, the first command the setter runs is the program probed there.
pub proof fn detected_backend_runs_probed_program(
    i: int,
    setter: SelectedBackend,
    wallpaper: Seq<char>,
    bgtype: BgType,
    resolution: Seq<char>,
    monitor: Seq<char>,
)
    requires
        0 <= i < PROBE_COUNT,
        setter.kind() == probe_backend(i),
    ensures
        selected_steps(setter, wallpaper, bgtype, resolution, monitor).len() > 0,
        selected_steps(setter, wallpaper, bgtype, resolution, monitor)[0].program == probe_program(i),
{
}

} // verus!
