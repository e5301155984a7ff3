use styli_rs::wallpaper::awww::AwwwBackend;
use styli_rs::wallpaper::aww::AwwBackend;
use styli_rs::wallpaper::custom::{expand_command, CustomBackend};
use styli_rs::wallpaper::feh::{feh_bg_flag, feh_commands, FehBackend};
use styli_rs::wallpaper::gnome::GnomeBackend;
use styli_rs::wallpaper::hyprland::HyprlandBackend;
use styli_rs::wallpaper::kde::{make_plasma_script, KdeBackend};
use styli_rs::wallpaper::nitrogen::NitrogenBackend;
use styli_rs::wallpaper::sway::SwayBackend;
use styli_rs::wallpaper::swww::SwwwBackend;
use styli_rs::wallpaper::xfce::XfceBackend;
use styli_rs::wallpaper::{
    check_step, Backend, BgType, CommandOutcome, CommandStep, StepFailure, WallpaperBackend,
};

fn args(step: &CommandStep) -> Vec<&str> {
    step.args.iter().map(|s| s.as_str()).collect()
}

#[test]
fn backend_from_str_known_names() {
    assert_eq!(Backend::from_str("feh"), Backend::Feh);
    assert_eq!(Backend::from_str("nitrogen"), Backend::Nitrogen);
    assert_eq!(Backend::from_str("gnome"), Backend::Gnome);
    assert_eq!(Backend::from_str("kde"), Backend::Kde);
    assert_eq!(Backend::from_str("xfce"), Backend::Xfce);
    assert_eq!(Backend::from_str("sway"), Backend::Sway);
    assert_eq!(Backend::from_str("hyprland"), Backend::Hyprland);
    assert_eq!(Backend::from_str("awww"), Backend::Awww);
    assert_eq!(Backend::from_str("swww"), Backend::Swww);
    assert_eq!(Backend::from_str("custom"), Backend::Custom);
    assert_eq!(Backend::from_str("auto"), Backend::Auto);
}

#[test]
fn backend_from_str_ignores_case() {
    assert_eq!(Backend::from_str("HyprLand"), Backend::Hyprland);
    assert_eq!(Backend::from_str("KDE"), Backend::Kde);
    assert_eq!(Backend::from_str("AUTO"), Backend::Auto);
    assert_eq!(Backend::from_str("SWWW"), Backend::Swww);
    assert_eq!(Backend::from_str("NITROGEN"), Backend::Nitrogen);
}

#[test]
fn backend_from_str_unknown_is_feh() {
    assert_eq!(Backend::from_str("aww"), Backend::Feh);
    assert_eq!(Backend::from_str("AWW"), Backend::Feh);
    assert_eq!(Backend::from_str("awwww"), Backend::Feh);
    assert_eq!(Backend::from_str(""), Backend::Feh);
    assert_eq!(Backend::from_str("sw"), Backend::Feh);
}

#[test]
fn bgtype_from_str_and_as_str() {
    for b in [BgType::Center, BgType::Fill, BgType::Fit, BgType::Stretch, BgType::Tile] {
        assert_eq!(BgType::from_str(b.as_str()), b);
    }
    assert_eq!(BgType::Center.as_str(), "center");
    assert_eq!(BgType::Stretch.as_str(), "stretch");
    assert_eq!(BgType::from_str("TILE"), BgType::Tile);
    assert_eq!(BgType::from_str("zoom"), BgType::Fill);
}

#[test]
fn image_daemons_run_img_with_filter() {
    let steps = AwwwBackend::new().commands("/tmp/a.jpg", BgType::Fill, "", "");
    assert_eq!(steps.len(), 1);
    assert_eq!(steps[0].program, "awww");
    assert_eq!(
        args(&steps[0]),
        vec!["img", "/tmp/a.jpg", "--filter", "crop", "--transition-type", "fade"]
    );
    assert_eq!(
        steps[0].on_spawn_error.as_deref(),
        Some("Failed to execute awww. Is awww running?")
    );
    assert_eq!(steps[0].on_failure.as_deref(), Some("awww failed"));

    let aww = AwwBackend::new().commands("w.png", BgType::Center, "", "");
    assert_eq!(aww[0].program, "aww");
    assert_eq!(aww[0].args[3], "center");
    let swww = SwwwBackend::new().commands("w.png", BgType::Tile, "", "");
    assert_eq!(swww[0].program, "swww");
    assert_eq!(swww[0].args[3], "tile");
    assert_eq!(swww[0].on_failure.as_deref(), Some("swww failed"));
}

#[test]
fn gnome_sets_both_uris() {
    let steps = GnomeBackend::new().commands("/p/w.jpg", BgType::Fit, "", "");
    assert_eq!(steps.len(), 2);
    assert_eq!(
        args(&steps[0]),
        vec!["set", "org.gnome.desktop.background", "picture-uri", "file:///p/w.jpg"]
    );
    assert_eq!(
        args(&steps[1]),
        vec!["set", "org.gnome.desktop.background", "picture-uri-dark", "file:///p/w.jpg"]
    );
    assert_eq!(steps[0].on_failure.as_deref(), Some("gsettings failed"));
    assert!(steps[1].on_spawn_error.is_none());
    assert!(steps[1].on_failure.is_none());
}

#[test]
fn hyprland_preloads_then_sets() {
    let steps = HyprlandBackend::new().commands("w.jpg", BgType::Fill, "", "");
    assert_eq!(steps[0].program, "hyprctl");
    assert_eq!(args(&steps[0]), vec!["hyprpaper", "preload", "w.jpg"]);
    assert_eq!(args(&steps[1]), vec!["hyprpaper", "wallpaper", ",", "w.jpg"]);
    assert_eq!(steps[0].on_failure.as_deref(), Some("hyprctl preload failed"));
}

#[test]
fn kde_script_embeds_path() {
    let script = make_plasma_script("/x/y.png");
    assert!(script.contains("d.writeConfig(\"Image\", \"file:///x/y.png\");"));
    assert!(script.starts_with("\n            var allPlasmoids = desktops();\n"));
    assert!(script.ends_with("\n            }\n            "));
    let steps = KdeBackend::new().commands("/x/y.png", BgType::Fill, "", "");
    assert_eq!(steps[0].program, "qdbus");
    assert_eq!(steps[0].args[3], script);
}

#[test]
fn nitrogen_and_sway_commands() {
    let n = NitrogenBackend::new().commands("w.jpg", BgType::Tile, "", "");
    assert_eq!(n[0].program, "nitrogen");
    assert_eq!(args(&n[0]), vec!["--set-tiled", "w.jpg"]);
    let modes = [
        (BgType::Center, "--set-centered"),
        (BgType::Fill, "--set-zoom-fill"),
        (BgType::Fit, "--set-zoom"),
        (BgType::Stretch, "--set-scaled"),
        (BgType::Tile, "--set-tiled"),
    ];
    for (b, option) in modes {
        let steps = NitrogenBackend::new().commands("x.png", b, "", "");
        assert_eq!(args(&steps[0]), vec![option, "x.png"]);
    }
    let s = SwayBackend::new().commands("w.jpg", BgType::Stretch, "", "");
    assert_eq!(s[0].program, "swaymsg");
    assert_eq!(args(&s[0]), vec!["output", "*", "bg", "w.jpg", "stretch"]);
}

#[test]
fn xfce_style_numbers() {
    let expected = [
        (BgType::Center, "1"),
        (BgType::Fill, "5"),
        (BgType::Fit, "3"),
        (BgType::Stretch, "2"),
        (BgType::Tile, "0"),
    ];
    for (b, n) in expected {
        let steps = XfceBackend::new().commands("w.jpg", b, "", "");
        assert_eq!(steps.len(), 2);
        assert_eq!(steps[0].args[3], "/backdrop/screen0/monitor0/workspace0/last-image");
        assert_eq!(steps[0].args[5], "w.jpg");
        assert!(steps[0].on_spawn_error.is_some());
        assert!(steps[0].on_failure.is_none());
        assert_eq!(steps[1].args[5], n);
    }
}

#[test]
fn feh_flags() {
    assert_eq!(feh_bg_flag("center"), "--bg-center");
    assert_eq!(feh_bg_flag("fill"), "--bg-fill");
    assert_eq!(feh_bg_flag("fit"), "--bg-max");
    assert_eq!(feh_bg_flag("stretch"), "--bg-scale");
    assert_eq!(feh_bg_flag("tile"), "--bg-tile");
    assert_eq!(feh_bg_flag("Tile"), "--bg-fill");
    let steps = feh_commands("w.jpg", "fit");
    assert_eq!(steps[0].program, "feh");
    assert_eq!(args(&steps[0]), vec!["--bg-max", "w.jpg"]);
    let via_backend = FehBackend::new().commands("w.jpg", BgType::Fit, "", "");
    assert_eq!(args(&via_backend[0]), vec!["--bg-max", "w.jpg"]);
}

#[test]
fn custom_template_expansion() {
    let cmd = expand_command(
        "feh --bg-{bgtype} {wallpaper} # {resolution} {monitor}",
        "/w.jpg",
        BgType::Fill,
        "1920x1080",
        "HDMI-1",
    );
    assert_eq!(cmd, "feh --bg-fill /w.jpg # 1920x1080 HDMI-1");
    assert_eq!(expand_command("{wallpaper}{wallpaper}", "a", BgType::Fit, "", ""), "aa");
    assert_eq!(expand_command("no placeholders", "a", BgType::Fit, "r", "m"), "no placeholders");
    assert_eq!(expand_command("{wallpaper}", "{bgtype}", BgType::Tile, "", ""), "tile");
    assert_eq!(
        expand_command("swww img -o {monitor} {wallpaper}", "w.png", BgType::Fill, "", "eDP-1"),
        "swww img -o eDP-1 w.png"
    );
    let backend = CustomBackend::new("echo {wallpaper}".to_string());
    assert!(backend.uses_resolution());
    assert!(backend.is_available());
    let steps = backend.commands("x.png", BgType::Fill, "", "");
    assert_eq!(steps[0].program, "sh");
    assert_eq!(args(&steps[0]), vec!["-c", "echo x.png"]);
    assert_eq!(steps[0].on_failure.as_deref(), Some("Custom backend failed"));
}

#[test]
fn check_step_outcomes() {
    let step = feh_commands("w.jpg", "fill").remove(0);
    match check_step(&step, &CommandOutcome::NotStarted) {
        Err(StepFailure::NotStarted(m)) => assert_eq!(m, "Failed to execute feh. Is feh installed?"),
        _ => panic!("expected a start failure"),
    }
    let failed = CommandOutcome::Finished { success: false, stderr: "bad file".to_string() };
    match check_step(&step, &failed) {
        Err(StepFailure::Failed(m)) => assert_eq!(m, "feh failed: bad file"),
        _ => panic!("expected a failure"),
    }
    let ok = CommandOutcome::Finished { success: true, stderr: String::new() };
    assert!(check_step(&step, &ok).is_ok());

    let optional = GnomeBackend::new().commands("w", BgType::Fill, "", "").remove(1);
    assert!(check_step(&optional, &CommandOutcome::NotStarted).is_ok());
    assert!(check_step(&optional, &failed).is_ok());
}

#[test]
fn default_availability() {
    assert!(GnomeBackend::new().is_available());
    assert!(!GnomeBackend::new().uses_resolution());
    assert_eq!(KdeBackend::default().name(), "kde");
}
