//! Where wallpapers come from: picsum.photos, Unsplash, DeviantArt, NASA's
//! picture of the day, Reddit and local folders.

pub mod deviantart;
pub mod local;
pub mod nasa;
pub mod picsum;
pub mod reddit;
pub mod unsplash;
