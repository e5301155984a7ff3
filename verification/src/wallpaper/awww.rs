//! Setting the wallpaper with the awww wallpaper daemon.

use vstd::prelude::*;
use super::{BgType, CommandStep, WallpaperBackend, image_daemon_commands, image_daemon_steps, step_views};

verus! {

/// Sets the wallpaper with the awww wallpaper daemon.
pub struct AwwwBackend;

impl AwwwBackend {
    pub fn new() -> (r: Self)
        ensures
            r == AwwwBackend,
    {
        AwwwBackend
    }
}

impl Default for AwwwBackend {
    fn default() -> (r: Self)
        ensures
            r == AwwwBackend,
    {
        AwwwBackend::new()
    }
}

impl WallpaperBackend for AwwwBackend {
    fn name(&self) -> (r: &'static str)
        ensures
            r@ == "awww"@,
    {
        "awww"
    }

    /// `awww img <wallpaper> --filter <filter> --transition-type fade`.
    fn commands(&self, wallpaper: &str, bgtype: BgType, resolution: &str, monitor: &str) -> (r:
        Vec<CommandStep>)
        ensures
            step_views(r@) == image_daemon_steps("awww"@, wallpaper@, bgtype),
    {
        image_daemon_commands("awww", wallpaper, bgtype)
    }
}

} // verus!
