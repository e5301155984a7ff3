//! Setting the wallpaper with the aww wallpaper daemon.

use vstd::prelude::*;
use super::{BgType, CommandStep, WallpaperBackend, image_daemon_commands, image_daemon_steps, step_views};

verus! {

/// Sets the wallpaper with the aww wallpaper daemon.
pub struct AwwBackend;

impl AwwBackend {
    pub fn new() -> (r: Self)
        ensures
            r == AwwBackend,
    {
        AwwBackend
    }
}

impl Default for AwwBackend {
    fn default() -> (r: Self)
        ensures
            r == AwwBackend,
    {
        AwwBackend::new()
    }
}

impl WallpaperBackend for AwwBackend {
    fn name(&self) -> (r: &'static str)
        ensures
            r@ == "aww"@,
    {
        "aww"
    }

    /// `aww img <wallpaper> --filter <filter> --transition-type fade`.
    fn commands(&self, wallpaper: &str, bgtype: BgType, resolution: &str, monitor: &str) -> (r:
        Vec<CommandStep>)
        ensures
            step_views(r@) == image_daemon_steps("aww"@, wallpaper@, bgtype),
    {
        image_daemon_commands("aww", wallpaper, bgtype)
    }
}

} // verus!
