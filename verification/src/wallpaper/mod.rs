//! Wallpaper setters: the backend and fill-mode choices, the common backend
//! interface, and the command lines each backend runs.
//!
//! A backend does not run anything itself: it describes the commands that set
//! the wallpaper as a list of [`CommandStep`]s, and [`check_step`] decides, from
//! the way one command ended, whether setting the wallpaper goes on or fails
//! and with which message.

use vstd::prelude::*;
use crate::text::{all_ascii, ascii_lower, ascii_upper, joined, opt_view, owned, str_eq, string_views, to_lowercase, unicode_lowercase};

pub mod auto;
pub mod aww;
pub mod awww;
pub mod custom;
pub mod feh;
pub mod gnome;
pub mod hyprland;
pub mod kde;
pub mod nitrogen;
pub mod sway;
pub mod swww;
pub mod xfce;

verus! {

/// A program that can set the desktop wallpaper.
#[derive(Debug, Clone, Copy, PartialEq, Eq, Structural)]
pub enum Backend {
    Feh,
    Nitrogen,
    Gnome,
    Kde,
    Xfce,
    Sway,
    Hyprland,
    Aww,
    Awww,
    Swww,
    Custom,
    Auto,
}

/// How the image fills the screen.
#[derive(Debug, Clone, Copy, PartialEq, Eq, Structural)]
pub enum BgType {
    Center,
    Fill,
    Fit,
    Stretch,
    Tile,
}

impl Backend {
    /// The backend that a lower-case name selects; unknown names select feh.
    /// No name selects aww, which only detection chooses.
    pub open spec fn named(s: Seq<char>) -> Backend {
        if s == "feh"@ {
            Backend::Feh
        } else if s == "nitrogen"@ {
            Backend::Nitrogen
        } else if s == "gnome"@ {
            Backend::Gnome
        } else if s == "kde"@ {
            Backend::Kde
        } else if s == "xfce"@ {
            Backend::Xfce
        } else if s == "sway"@ {
            Backend::Sway
        } else if s == "hyprland"@ {
            Backend::Hyprland
        } else if s == "awww"@ {
            Backend::Awww
        } else if s == "swww"@ {
            Backend::Swww
        } else if s == "custom"@ {
            Backend::Custom
        } else if s == "auto"@ {
            Backend::Auto
        } else {
            Backend::Feh
        }
    }

    /// The name of a backend.
    pub open spec fn name(self) -> Seq<char> {
        match self {
            Backend::Feh => "feh"@,
            Backend::Nitrogen => "nitrogen"@,
            Backend::Gnome => "gnome"@,
            Backend::Kde => "kde"@,
            Backend::Xfce => "xfce"@,
            Backend::Sway => "sway"@,
            Backend::Hyprland => "hyprland"@,
            Backend::Aww => "aww"@,
            Backend::Awww => "awww"@,
            Backend::Swww => "swww"@,
            Backend::Custom => "custom"@,
            Backend::Auto => "auto"@,
        }
    }

    /// The backend that an already lower-cased name selects.
    pub fn from_lowercase_name(s: &str) -> (b: Backend)
        ensures
            b == Backend::named(s@),
    {
        if str_eq(s, "feh") {
            Backend::Feh
        } else if str_eq(s, "nitrogen") {
            Backend::Nitrogen
        } else if str_eq(s, "gnome") {
            Backend::Gnome
        } else if str_eq(s, "kde") {
            Backend::Kde
        } else if str_eq(s, "xfce") {
            Backend::Xfce
        } else if str_eq(s, "sway") {
            Backend::Sway
        } else if str_eq(s, "hyprland") {
            Backend::Hyprland
        } else if str_eq(s, "awww") {
            Backend::Awww
        } else if str_eq(s, "swww") {
            Backend::Swww
        } else if str_eq(s, "custom") {
            Backend::Custom
        } else if str_eq(s, "auto") {
            Backend::Auto
        } else {
            Backend::Feh
        }
    }

    /// The backend a name selects, ignoring case; unknown names select feh.
    pub fn from_str(s: &str) -> (b: Backend)
        ensures
            b == Backend::named(unicode_lowercase(s@)),
            all_ascii(s@) ==> b == Backend::named(ascii_lower(s@)),
    {
        let lower = to_lowercase(s);
        Backend::from_lowercase_name(lower.as_str())
    }
}

impl BgType {
    /// The fill mode that a lower-case name selects; unknown names select fill.
    pub open spec fn named(s: Seq<char>) -> BgType {
        if s == "center"@ {
            BgType::Center
        } else if s == "fill"@ {
            BgType::Fill
        } else if s == "fit"@ {
            BgType::Fit
        } else if s == "stretch"@ {
            BgType::Stretch
        } else if s == "tile"@ {
            BgType::Tile
        } else {
            BgType::Fill
        }
    }

    /// The name of a fill mode.
    pub open spec fn name(self) -> Seq<char> {
        match self {
            BgType::Center => "center"@,
            BgType::Fill => "fill"@,
            BgType::Fit => "fit"@,
            BgType::Stretch => "stretch"@,
            BgType::Tile => "tile"@,
        }
    }

    /// The fill mode that an already lower-cased name selects.
    pub fn from_lowercase_name(s: &str) -> (b: BgType)
        ensures
            b == BgType::named(s@),
    {
        if str_eq(s, "center") {
            BgType::Center
        } else if str_eq(s, "fill") {
            BgType::Fill
        } else if str_eq(s, "fit") {
            BgType::Fit
        } else if str_eq(s, "stretch") {
            BgType::Stretch
        } else if str_eq(s, "tile") {
            BgType::Tile
        } else {
            BgType::Fill
        }
    }

    /// The fill mode a name selects, ignoring case; unknown names select fill.
    pub fn from_str(s: &str) -> (b: BgType)
        ensures
            b == BgType::named(unicode_lowercase(s@)),
            all_ascii(s@) ==> b == BgType::named(ascii_lower(s@)),
    {
        let lower = to_lowercase(s);
        BgType::from_lowercase_name(lower.as_str())
    }

    /// The name of this fill mode.
    pub fn as_str(&self) -> (r: &'static str)
        ensures
            r@ == self.name(),
    {
        match self {
            BgType::Center => "center",
            BgType::Fill => "fill",
            BgType::Fit => "fit",
            BgType::Stretch => "stretch",
            BgType::Tile => "tile",
        }
    }
}

/// One command that a backend runs.
pub struct CommandStep {
    /// The program to start.
    pub program: String,
    /// Its arguments.
    pub args: Vec<String>,
    /// When set, failing to start the program fails the backend with this
    /// message; otherwise that failure is ignored.
    pub on_spawn_error: Option<String>,
    /// When set, the program ending unsuccessfully fails the backend with this
    /// message, followed by `": "` and what the program wrote to standard
    /// error; otherwise its exit status is ignored.
    pub on_failure: Option<String>,
}

/// The view of a [`CommandStep`].
pub struct StepSpec {
    pub program: Seq<char>,
    pub args: Seq<Seq<char>>,
    pub on_spawn_error: Option<Seq<char>>,
    pub on_failure: Option<Seq<char>>,
}

impl View for CommandStep {
    type V = StepSpec;

    open spec fn view(&self) -> StepSpec {
        StepSpec {
            program: self.program@,
            args: string_views(self.args@),
            on_spawn_error: opt_view(self.on_spawn_error),
            on_failure: opt_view(self.on_failure),
        }
    }
}

/// The views of a list of steps.
pub open spec fn step_views(v: Seq<CommandStep>) -> Seq<StepSpec> {
    v.map_values(|s: CommandStep| s@)
}

/// How one command ended.
pub enum CommandOutcome {
    /// The program could not be started.
    NotStarted,
    /// The program ran to its end.
    Finished { success: bool, stderr: String },
}

/// Why a backend failed.
pub enum StepFailure {
    /// The program could not be started; the message says which one.
    NotStarted(String),
    /// The program ended unsuccessfully; the message holds its standard error.
    Failed(String),
}

/// Whether setting the wallpaper goes on after `step` ended as `outcome`.
pub fn check_step(step: &CommandStep, outcome: &CommandOutcome) -> (r: Result<(), StepFailure>)
    ensures
        match *outcome {
            CommandOutcome::NotStarted => match step.on_spawn_error {
                Some(m) => r matches Err(StepFailure::NotStarted(msg)) && msg@ == m@,
                None => r is Ok,
            },
            CommandOutcome::Finished { success, stderr } => if !success && step.on_failure is Some {
                r matches Err(StepFailure::Failed(msg)) && msg@ == step.on_failure->0@ + ": "@
                    + stderr@
            } else {
                r is Ok
            },
        },
{
    match outcome {
        CommandOutcome::NotStarted => match &step.on_spawn_error {
            Some(m) => Err(StepFailure::NotStarted(m.clone())),
            None => Ok(()),
        },
        CommandOutcome::Finished { success, stderr } => {
            if !*success {
                match &step.on_failure {
                    Some(m) => {
                        let msg = m.clone().concat(": ").concat(stderr.as_str());
                        Err(StepFailure::Failed(msg))
                    },
                    None => Ok(()),
                }
            } else {
                Ok(())
            }
        },
    }
}

/// A wallpaper setter.
pub trait WallpaperBackend {
    /// The backend's name.
    fn name(&self) -> &'static str;

    /// The commands that set `wallpaper` with fill mode `bgtype`, in order;
    /// `resolution` and `monitor` describe the screen, for backends that use
    /// them.
    fn commands(&self, wallpaper: &str, bgtype: BgType, resolution: &str, monitor: &str) -> Vec<
        CommandStep,
    >;

    /// Whether `commands` reads `resolution` and `monitor`; by default it does
    /// not.
    fn uses_resolution(&self) -> (r: bool)
        default_ensures
            !r,
    {
        false
    }

    /// Whether the backend can be used; by default it can.
    fn is_available(&self) -> (r: bool)
        default_ensures
            r,
    {
        true
    }
}

/// A step that must start and must succeed.
pub fn required_step(program: &str, args: Vec<String>, spawn_error: &str, failure: &str) -> (r:
    CommandStep)
    ensures
        r@ == (StepSpec {
            program: program@,
            args: string_views(args@),
            on_spawn_error: Some(spawn_error@),
            on_failure: Some(failure@),
        }),
{
    CommandStep {
        program: owned(program),
        args,
        on_spawn_error: Some(owned(spawn_error)),
        on_failure: Some(owned(failure)),
    }
}

/// A step whose outcome does not matter.
pub fn optional_step(program: &str, args: Vec<String>) -> (r: CommandStep)
    ensures
        r@ == (StepSpec {
            program: program@,
            args: string_views(args@),
            on_spawn_error: None,
            on_failure: None,
        }),
{
    CommandStep { program: owned(program), args, on_spawn_error: None, on_failure: None }
}


/// The `--filter` value that aww, awww and swww use for a fill mode.
pub open spec fn filter_name(b: BgType) -> Seq<char> {
    match b {
        BgType::Center => "center"@,
        BgType::Fill => "crop"@,
        BgType::Fit => "fit"@,
        BgType::Stretch => "stretch"@,
        BgType::Tile => "tile"@,
    }
}

/// The `--filter` value for a fill mode.
pub fn transition_filter(b: BgType) -> (r: &'static str)
    ensures
        r@ == filter_name(b),
{
    match b {
        BgType::Center => "center",
        BgType::Fill => "crop",
        BgType::Fit => "fit",
        BgType::Stretch => "stretch",
        BgType::Tile => "tile",
    }
}

/// The one step of the image daemons (aww, awww, swww):
/// `<program> img <wallpaper> --filter <filter> --transition-type fade`,
/// which must start and succeed.
pub open spec fn image_daemon_steps(program: Seq<char>, w: Seq<char>, b: BgType) -> Seq<StepSpec> {
    seq![
        StepSpec {
            program: program,
            args: seq!["img"@, w, "--filter"@, filter_name(b), "--transition-type"@, "fade"@],
            on_spawn_error: Some("Failed to execute "@ + program + ". Is "@ + program + " running?"@),
            on_failure: Some(program + " failed"@),
        },
    ]
}

/// The steps of an image daemon.
pub fn image_daemon_commands(program: &str, wallpaper: &str, bgtype: BgType) -> (r: Vec<CommandStep>)
    ensures
        step_views(r@) == image_daemon_steps(program@, wallpaper@, bgtype),
{
    let mut args: Vec<String> = Vec::new();
    args.push(owned("img"));
    args.push(owned(wallpaper));
    args.push(owned("--filter"));
    args.push(owned(transition_filter(bgtype)));
    args.push(owned("--transition-type"));
    args.push(owned("fade"));
    assert(string_views(args@) =~= seq![
        "img"@,
        wallpaper@,
        "--filter"@,
        filter_name(bgtype),
        "--transition-type"@,
        "fade"@,
    ]);
    let spawn_error = joined("Failed to execute ", program).concat(". Is ").concat(program).concat(
        " running?",
    );
    let failure = joined(program, " failed");
    let step = CommandStep {
        program: owned(program),
        args,
        on_spawn_error: Some(spawn_error),
        on_failure: Some(failure),
    };
    assert(step@ == image_daemon_steps(program@, wallpaper@, bgtype)[0]);
    let mut steps: Vec<CommandStep> = Vec::new();
    steps.push(step);
    assert(step_views(steps@) =~= image_daemon_steps(program@, wallpaper@, bgtype));
    steps
}


/// A fill mode's name is lower-case ASCII and selects that fill mode again,
/// so `BgType::from_str(b.as_str())` is `b`.
pub proof fn bgtype_name_round_trip(b: BgType)
    ensures
        all_ascii(b.name()),
        ascii_lower(b.name()) == b.name(),
        BgType::named(b.name()) == b,
{
    reveal_strlit("center");
    reveal_strlit("fill");
    reveal_strlit("fit");
    reveal_strlit("stretch");
    reveal_strlit("tile");
    assert(ascii_lower(b.name()) =~= b.name());
    assert("fill"@[0] != "center"@[0]);
    assert("fit"@.len() != "center"@.len() && "fit"@[2] != "fill"@[2]);
    assert("stretch"@.len() != "center"@.len() && "stretch"@.len() != "fill"@.len()
        && "stretch"@.len() != "fit"@.len());
    assert("tile"@.len() != "center"@.len() && "tile"@[0] != "fill"@[0] && "tile"@.len()
        != "fit"@.len() && "tile"@.len() != "stretch"@.len());
}


/// A backend's name is lower-case ASCII and, for every backend but aww (which
/// only detection selects), selects that backend again, so
/// `Backend::from_str` of such a backend's name gives that backend.
pub proof fn backend_name_round_trip(b: Backend)
    requires
        b != Backend::Aww,
    ensures
        all_ascii(b.name()),
        ascii_lower(b.name()) == b.name(),
        Backend::named(b.name()) == b,
{
    reveal_strlit("feh");
    reveal_strlit("nitrogen");
    reveal_strlit("gnome");
    reveal_strlit("kde");
    reveal_strlit("xfce");
    reveal_strlit("sway");
    reveal_strlit("hyprland");
    reveal_strlit("awww");
    reveal_strlit("swww");
    reveal_strlit("custom");
    reveal_strlit("auto");
    assert(ascii_lower(b.name()) =~= b.name());
    match b {
        Backend::Kde => assert("kde"@[0] != "feh"@[0]),
        Backend::Sway => assert("sway"@[0] != "xfce"@[0]),
        Backend::Hyprland => assert("hyprland"@[0] != "nitrogen"@[0]),
        Backend::Awww => assert("awww"@[0] != "xfce"@[0] && "awww"@[0] != "sway"@[0]),
        Backend::Swww => assert("swww"@[0] != "xfce"@[0] && "swww"@[2] != "sway"@[2]
            && "swww"@[0] != "awww"@[0]),
        Backend::Auto => assert("auto"@[0] != "xfce"@[0] && "auto"@[0] != "sway"@[0]
            && "auto"@[1] != "awww"@[1] && "auto"@[0] != "swww"@[0]),
        _ => {},
    }
}

/// A backend's name written in any mix of ASCII upper and lower case selects
/// that backend (aww aside, which no name selects); its all-upper-case form
/// is one such spelling.
pub proof fn backend_name_any_case(b: Backend, s: Seq<char>)
    requires
        b != Backend::Aww,
        all_ascii(s),
        ascii_lower(s) == b.name(),
    ensures
        Backend::named(ascii_lower(s)) == b,
        all_ascii(ascii_upper(b.name())),
        ascii_lower(ascii_upper(b.name())) == b.name(),
        Backend::named(ascii_lower(ascii_upper(b.name()))) == b,
{
    backend_name_round_trip(b);
    let n = b.name();
    assert(ascii_lower(ascii_upper(n)) =~= n);
}

} // verus!
