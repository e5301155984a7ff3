//! The settings read from `~/.config/styli.toml` and their defaults.
//!
//! Every setting may be left out of the file; it then takes the default
//! given here.

use vstd::prelude::*;
use crate::text::{owned, string_views};

verus! {

/// `[general]`: background operation.
#[derive(Debug, Clone)]
pub struct GeneralConfig {
    pub daemon: bool,
    pub interval: String,
}

/// `[wallpaper]`: where wallpapers come from and how they are set.
#[derive(Debug, Clone)]
pub struct WallpaperConfig {
    pub source: String,
    pub local_dir: Option<String>,
    pub resolution: String,
    pub backend: String,
    pub bgtype: String,
}

/// `[custom]`: the command template of the custom backend.
#[derive(Debug, Clone)]
pub struct CustomConfig {
    pub command: Option<String>,
}

/// `[reddit]`: which subreddits to read and how to sort them.
#[derive(Debug, Clone)]
pub struct RedditConfig {
    pub subreddits: Vec<String>,
    pub sort: String,
}

/// `[unsplash]`: the access key of the Unsplash API.
#[derive(Debug, Clone)]
pub struct UnsplashConfig {
    pub access_key: Option<String>,
}

/// The default interval between wallpaper changes: `15m`.
pub fn default_interval() -> (r: String)
    ensures
        r@ == "15m"@,
{
    owned("15m")
}

/// The default wallpaper source: `picsum`.
pub fn default_source() -> (r: String)
    ensures
        r@ == "picsum"@,
{
    owned("picsum")
}

/// The default resolution: `auto`, detected from the screen.
pub fn default_resolution() -> (r: String)
    ensures
        r@ == "auto"@,
{
    owned("auto")
}

/// The default wallpaper backend: `feh`.
pub fn default_backend() -> (r: String)
    ensures
        r@ == "feh"@,
{
    owned("feh")
}

/// The default fill mode: `fill`.
pub fn default_bgtype() -> (r: String)
    ensures
        r@ == "fill"@,
{
    owned("fill")
}

/// Colour generation is on by default.
pub fn default_colors_enabled() -> (r: bool)
    ensures
        r,
{
    true
}

/// Sixteen-colour output is on by default.
pub fn default_cols16() -> (r: bool)
    ensures
        r,
{
    true
}

/// The default colour extraction backend: `kmeans`.
pub fn default_color_backend() -> (r: String)
    ensures
        r@ == "kmeans"@,
{
    owned("kmeans")
}

/// Compatibility output is on by default.
pub fn default_compatibility() -> (r: bool)
    ensures
        r,
{
    true
}

/// The default subreddits: `wallpapers`, `earthporn`, `nature`.
pub fn default_subreddits() -> (r: Vec<String>)
    ensures
        string_views(r@) == seq!["wallpapers"@, "earthporn"@, "nature"@],
{
    let mut v: Vec<String> = Vec::new();
    v.push(owned("wallpapers"));
    v.push(owned("earthporn"));
    v.push(owned("nature"));
    assert(string_views(v@) =~= seq!["wallpapers"@, "earthporn"@, "nature"@]);
    v
}

/// The default subreddit sort: `hot`.
pub fn default_sort() -> (r: String)
    ensures
        r@ == "hot"@,
{
    owned("hot")
}

impl Default for GeneralConfig {
    /// Not a daemon; changes every 15 minutes.
    fn default() -> (r: Self)
        ensures
            !r.daemon,
            r.interval@ == "15m"@,
    {
        GeneralConfig { daemon: false, interval: owned("15m") }
    }
}

impl Default for WallpaperConfig {
    /// Picsum, detected resolution, feh, fill, no local directory.
    fn default() -> (r: Self)
        ensures
            r.source@ == "picsum"@,
            r.local_dir is None,
            r.resolution@ == "auto"@,
            r.backend@ == "feh"@,
            r.bgtype@ == "fill"@,
    {
        WallpaperConfig {
            source: default_source(),
            local_dir: None,
            resolution: default_resolution(),
            backend: default_backend(),
            bgtype: default_bgtype(),
        }
    }
}

impl Default for CustomConfig {
    /// No command template.
    fn default() -> (r: Self)
        ensures
            r.command is None,
    {
        CustomConfig { command: None }
    }
}

impl Default for RedditConfig {
    /// `wallpapers`, `earthporn`, `nature`, sorted by `hot`.
    fn default() -> (r: Self)
        ensures
            string_views(r.subreddits@) == seq!["wallpapers"@, "earthporn"@, "nature"@],
            r.sort@ == "hot"@,
    {
        RedditConfig { subreddits: default_subreddits(), sort: default_sort() }
    }
}

impl Default for UnsplashConfig {
    /// No access key.
    fn default() -> (r: Self)
        ensures
            r.access_key is None,
    {
        UnsplashConfig { access_key: None }
    }
}

} // verus!
