//! Setting the wallpaper with the swww wallpaper daemon.

use vstd::prelude::*;
use super::{BgType, CommandStep, WallpaperBackend, image_daemon_commands, image_daemon_steps, step_views};

verus! {

/// Sets the wallpaper with the swww wallpaper daemon.
pub struct SwwwBackend;

impl SwwwBackend {
    pub fn new() -> (r: Self)
        ensures
            r == SwwwBackend,
    {
        SwwwBackend
    }
}

impl Default for SwwwBackend {
    fn default() -> (r: Self)
        ensures
            r == SwwwBackend,
    {
        SwwwBackend::new()
    }
}

impl WallpaperBackend for SwwwBackend {
    fn name(&self) -> (r: &'static str)
        ensures
            r@ == "swww"@,
    {
        "swww"
    }

    /// `swww img <wallpaper> --filter <filter> --transition-type fade`.
    fn commands(&self, wallpaper: &str, bgtype: BgType, resolution: &str, monitor: &str) -> (r:
        Vec<CommandStep>)
        ensures
            step_views(r@) == image_daemon_steps("swww"@, wallpaper@, bgtype),
    {
        image_daemon_commands("swww", wallpaper, bgtype)
    }
}

} // verus!
