use styli_rs::cli::{
    chosen_backend, chosen_bgtype, chosen_resolution, chosen_source, create_backend, local_folder,
    reload_target, requested_resolution, set_generates_colors, set_steps, step_failure_ends_set,
    SelectedBackend, SetStep, Source,
};
use styli_rs::config::{
    default_backend, default_bgtype, default_color_backend, default_colors_enabled,
    default_cols16, default_compatibility, default_interval, default_resolution, default_sort,
    default_source, default_subreddits, CustomConfig, GeneralConfig, RedditConfig,
    UnsplashConfig, WallpaperConfig,
};
use styli_rs::wallpaper::{Backend, BgType, WallpaperBackend};

#[test]
fn config_defaults() {
    let w = WallpaperConfig::default();
    assert_eq!(w.source, "picsum");
    assert_eq!(w.resolution, "auto");
    assert_eq!(w.backend, "feh");
    assert_eq!(w.bgtype, "fill");
    assert!(w.local_dir.is_none());
    let g = GeneralConfig::default();
    assert!(!g.daemon);
    assert_eq!(g.interval, "15m");
    assert!(CustomConfig::default().command.is_none());
    assert!(UnsplashConfig::default().access_key.is_none());
    let r = RedditConfig::default();
    assert_eq!(r.subreddits, vec!["wallpapers", "earthporn", "nature"]);
    assert_eq!(r.sort, "hot");
    assert_eq!(default_interval(), "15m");
    assert_eq!(default_source(), "picsum");
    assert_eq!(default_resolution(), "auto");
    assert_eq!(default_backend(), "feh");
    assert_eq!(default_bgtype(), "fill");
    assert!(default_colors_enabled());
    assert!(default_cols16());
    assert_eq!(default_color_backend(), "kmeans");
    assert!(default_compatibility());
    assert_eq!(default_subreddits().len(), 3);
    assert_eq!(default_sort(), "hot");
}

#[test]
fn source_names() {
    assert_eq!(Source::from_str("picsum"), Source::Picsum);
    assert_eq!(Source::from_str("unsplash"), Source::Unsplash);
    assert_eq!(Source::from_str("Reddit"), Source::Reddit);
    assert_eq!(Source::from_str("DEVIANTART"), Source::Deviantart);
    assert_eq!(Source::from_str("local"), Source::Local);
    assert_eq!(Source::from_str("flickr"), Source::Picsum);
}

#[test]
fn command_line_before_configuration() {
    assert_eq!(chosen_source(Some(Source::Unsplash), Some("reddit")), Source::Unsplash);
    assert_eq!(chosen_source(None, Some("reddit")), Source::Reddit);
    assert_eq!(chosen_source(None, None), Source::Picsum);
    assert_eq!(chosen_backend(Some(Backend::Kde), Some("sway")), Backend::Kde);
    assert_eq!(chosen_backend(None, Some("nitrogen")), Backend::Nitrogen);
    assert_eq!(chosen_backend(None, Some("feh")), Backend::Feh);
    assert_eq!(chosen_backend(None, None), Backend::Auto);
    assert_eq!(chosen_bgtype(Some(BgType::Tile), Some("center")), BgType::Tile);
    assert_eq!(chosen_bgtype(None, Some("center")), BgType::Center);
    assert_eq!(chosen_bgtype(None, None), BgType::Fill);
    assert_eq!(chosen_resolution(Some("1280x720"), Some("800x600")), Some("1280x720".to_string()));
    assert_eq!(chosen_resolution(None, Some("800x600")), Some("800x600".to_string()));
    assert_eq!(chosen_resolution(Some("auto"), Some("800x600")), None);
    assert_eq!(chosen_resolution(None, Some("auto")), None);
    assert_eq!(chosen_resolution(None, None), None);
}

#[test]
fn local_folder_from_config() {
    assert_eq!(local_folder(Some("/home/me/Pictures")), Ok("/home/me/Pictures".to_string()));
    assert_eq!(
        local_folder(None),
        Err("No local folder configured: set local_dir under [wallpaper]".to_string())
    );
}

#[test]
fn resolution_argument() {
    assert_eq!(requested_resolution(Some("auto")), None);
    assert_eq!(requested_resolution(None), None);
    assert_eq!(requested_resolution(Some("1280x720")), Some("1280x720".to_string()));
    assert_eq!(requested_resolution(Some("AUTO")), Some("AUTO".to_string()));
}

#[test]
fn colors_after_setting() {
    assert!(set_generates_colors(false, false));
    assert!(!set_generates_colors(true, false));
    assert!(!set_generates_colors(false, true));
}

#[test]
fn backend_creation() {
    match create_backend(Backend::Auto, None, None, Some(Backend::Sway)) {
        SelectedBackend::Sway(_) => {}
        _ => panic!("expected sway"),
    }
    match create_backend(Backend::Custom, None, None, None) {
        SelectedBackend::Custom(c) => assert_eq!(c.command, "feh --bg-{bgtype} {wallpaper}"),
        _ => panic!("expected custom"),
    }
    match create_backend(Backend::Custom, None, Some("from config {wallpaper}"), None) {
        SelectedBackend::Custom(c) => assert_eq!(c.command, "from config {wallpaper}"),
        _ => panic!("expected custom"),
    }
    let custom = create_backend(
        Backend::Custom,
        Some("set {wallpaper} {resolution} {monitor}"),
        Some("from config"),
        None,
    );
    assert!(custom.uses_resolution());
    let steps = custom.commands("w.jpg", BgType::Fill, "800x600", "DP-2");
    assert_eq!(steps[0].args[1], "set w.jpg 800x600 DP-2");
    let kde = create_backend(Backend::Kde, Some("ignored"), None, None);
    assert_eq!(kde.name(), "kde");
    assert!(!kde.uses_resolution());
    assert!(kde.is_available());
    let feh = create_backend(Backend::Feh, None, None, None);
    assert_eq!(feh.commands("w.jpg", BgType::Tile, "", "")[0].args[0], "--bg-tile");
    let swww = create_backend(Backend::from_str("swww"), None, None, None);
    assert_eq!(swww.name(), "swww");
    assert_eq!(swww.commands("w.jpg", BgType::Fill, "", "")[0].program, "swww");
    let aww = create_backend(Backend::Auto, None, None, Some(Backend::Aww));
    assert_eq!(aww.name(), "aww");
    assert_eq!(aww.commands("w.jpg", BgType::Fill, "", "")[0].program, "aww");
    let nitrogen = create_backend(Backend::Nitrogen, None, None, None);
    assert_eq!(nitrogen.commands("w.jpg", BgType::Tile, "", "")[0].args[0], "--set-tiled");
}

#[test]
fn backend_names_select_their_backend() {
    let all = [
        Backend::Feh,
        Backend::Nitrogen,
        Backend::Gnome,
        Backend::Kde,
        Backend::Xfce,
        Backend::Sway,
        Backend::Hyprland,
        Backend::Awww,
        Backend::Swww,
        Backend::Custom,
    ];
    for b in all {
        let name = create_backend(b, None, None, None).name();
        assert_eq!(Backend::from_str(name), b);
        assert_eq!(Backend::from_str(&name.to_uppercase()), b);
    }
}

#[test]
fn reload_decisions() {
    assert_eq!(reload_target(Some("/p/w.jpg"), true), Ok("/p/w.jpg".to_string()));
    assert_eq!(
        reload_target(Some("/p/w.jpg"), false),
        Err("Last wallpaper not found: /p/w.jpg".to_string())
    );
    assert_eq!(
        reload_target(None, false),
        Err("No previous wallpaper found. Run without --reload first.".to_string())
    );
}

#[test]
fn set_flow_steps() {
    assert_eq!(
        set_steps(false, false, true),
        vec![SetStep::SetWallpaper, SetStep::GenerateColors]
    );
    assert_eq!(set_steps(false, true, true), vec![SetStep::SetWallpaper]);
    assert_eq!(set_steps(false, false, false), vec![SetStep::SetWallpaper]);
    assert_eq!(set_steps(true, false, true), vec![SetStep::PreviewColors]);
    assert_eq!(set_steps(true, true, true), vec![SetStep::PreviewColors]);
    assert!(step_failure_ends_set(SetStep::SetWallpaper));
    assert!(!step_failure_ends_set(SetStep::GenerateColors));
    assert!(step_failure_ends_set(SetStep::PreviewColors));
}
