use styli_rs::resolution::{
    drm_entry_resolution, drm_resolution, extract_sway_resolution, DrmEntry, first_mode_resolution, get_resolution, is_card_path,
    is_connected_status, monitor_name, parse_wlr_randr_line, parse_xrandr_line, resolution_from_output,
    tool_command, ResolutionProbe, ResolutionStep, ResolutionTool,
};
use styli_rs::wallpaper::auto::{detect, probe_command, Detection};
use styli_rs::wallpaper::Backend;

fn chars(s: &str) -> Vec<char> {
    s.chars().collect()
}

fn text(v: Option<Vec<char>>) -> Option<String> {
    v.map(|c| c.into_iter().collect())
}

#[test]
fn xrandr_line() {
    let line = chars("HDMI-1 connected primary 2560x1440+0+0 (normal left inverted) 597mm x 336mm");
    assert_eq!(text(parse_xrandr_line(&line)), Some("x".to_string()));
    let line = chars("eDP-1 connected 1920x1080 (normal)");
    assert_eq!(text(parse_xrandr_line(&line)), Some("1920x1080".to_string()));
    let short = chars("DP-1 connected");
    assert_eq!(text(parse_xrandr_line(&short)), None);
    let first_word = chars("1920x1080 connected 800x600");
    assert_eq!(text(parse_xrandr_line(&first_word)), Some("800x600".to_string()));
}

#[test]
fn xrandr_output() {
    let out = "Screen 0: minimum 320 x 200\nDP-2 disconnected 1024x768 (normal)\neDP-1 connected 1366x768 (normal)\r\n";
    assert_eq!(
        resolution_from_output(ResolutionTool::Xrandr, out),
        Some("1366x768".to_string())
    );
    assert_eq!(resolution_from_output(ResolutionTool::Xrandr, "nothing here\n"), None);
}

#[test]
fn wlr_randr_line_and_output() {
    let line = chars("  3840x2160 px, 60.000000 Hz (preferred, current)");
    assert_eq!(text(parse_wlr_randr_line(&line)), Some("3840x2160".to_string()));
    let no_x = chars("HDMI-A-1 \"Dell\"");
    assert_eq!(text(parse_wlr_randr_line(&no_x)), None);
    let two_x = chars("DP-1 1x2x3");
    assert_eq!(text(parse_wlr_randr_line(&two_x)), None);
    let out = "HDMI-A-1 \"Dell Inc.\"\n  Modes:\n    2560x1440 px\nDP-1 1280x1024\n";
    assert_eq!(
        resolution_from_output(ResolutionTool::WlrRandr, out),
        Some("1280x1024".to_string())
    );
}

#[test]
fn sway_line_and_output() {
    let line = chars("{\"name\":\"eDP-1\",\"active\":true,\"mode\":\"1920x1200@60\"}");
    assert_eq!(text(extract_sway_resolution(&line)), Some("1920x1200@60".to_string()));
    let line = chars("\"mode\":\"2560x1440x3\"");
    assert_eq!(text(extract_sway_resolution(&line)), Some("2560x1440".to_string()));
    let no_x = chars("\"mode\":\"auto\"");
    assert_eq!(text(extract_sway_resolution(&no_x)), None);
    let unterminated = chars("\"mode\":\"1920x1080");
    assert_eq!(text(extract_sway_resolution(&unterminated)), None);
    let out = "{\"active\":false,\"mode\":\"800x600\"}\n{\"active\":true,\"mode\":\"1024x768\"}\n";
    assert_eq!(
        resolution_from_output(ResolutionTool::Swaymsg, out),
        Some("1024x768".to_string())
    );
}

#[test]
fn drm_entries() {
    assert!(is_card_path("/sys/class/drm/card0-eDP-1"));
    assert!(!is_card_path("/sys/class/drm/renderD128"));
    assert!(is_connected_status("connected\n"));
    assert!(!is_connected_status("disconnected\n"));
    assert_eq!(first_mode_resolution("1920x1080\n1280x720\n"), Some("1920x1080".to_string()));
    assert_eq!(first_mode_resolution(""), None);
    assert_eq!(first_mode_resolution("preferred\n1920x1080\n"), None);
}

#[test]
fn tool_commands() {
    let (p, a) = tool_command(ResolutionTool::Xrandr);
    assert_eq!(p, "xrandr");
    assert_eq!(a, vec!["--current".to_string()]);
    let (p, a) = tool_command(ResolutionTool::WlrRandr);
    assert_eq!(p, "wlr-randr");
    assert!(a.is_empty());
    let (p, a) = tool_command(ResolutionTool::Swaymsg);
    assert_eq!(p, "swaymsg");
    assert_eq!(a, vec!["-t".to_string(), "get_outputs".to_string()]);
}

#[test]
fn resolution_steps() {
    match get_resolution(&[]) {
        ResolutionStep::Probe(p) => assert_eq!(p, ResolutionProbe::Tool(ResolutionTool::Xrandr)),
        _ => panic!("expected a probe"),
    }
    match get_resolution(&[None, None]) {
        ResolutionStep::Probe(p) => assert_eq!(p, ResolutionProbe::Tool(ResolutionTool::Swaymsg)),
        _ => panic!("expected a probe"),
    }
    match get_resolution(&[None, None, None]) {
        ResolutionStep::Probe(p) => assert_eq!(p, ResolutionProbe::Drm),
        _ => panic!("expected a probe"),
    }
    match get_resolution(&[None, Some("800x600".to_string())]) {
        ResolutionStep::Resolved(r) => assert_eq!(r, "800x600"),
        _ => panic!("expected a resolution"),
    }
    match get_resolution(&[None, None, None, None]) {
        ResolutionStep::Resolved(r) => assert_eq!(r, "1920x1080"),
        _ => panic!("expected the fallback"),
    }
}

#[test]
fn detection_steps() {
    assert_eq!(detect(&[]), Detection::Probe(0));
    assert_eq!(detect(&[false, false]), Detection::Probe(2));
    assert_eq!(detect(&[true]), Detection::Detected(Backend::Sway));
    assert_eq!(detect(&[false, true]), Detection::Detected(Backend::Hyprland));
    assert_eq!(detect(&[false, false, true]), Detection::Detected(Backend::Aww));
    assert_eq!(detect(&[false; 7]), Detection::Probe(7));
    assert_eq!(detect(&[false; 8]), Detection::Detected(Backend::Feh));
    let mut seven = vec![false; 6];
    seven.push(true);
    assert_eq!(detect(&seven), Detection::Detected(Backend::Nitrogen));
    assert_eq!(probe_command(0), ("swaymsg".to_string(), "--version".to_string()));
    assert_eq!(probe_command(1), ("hyprctl".to_string(), "version".to_string()));
    assert_eq!(probe_command(5), ("xfconf-query".to_string(), "--version".to_string()));
}

#[test]
fn monitor_from_xrandr() {
    let output = "Screen 0: minimum 8 x 8, current 2560 x 1440\n\
                  DP-1 disconnected (normal left inverted right x axis y axis)\n\
                  HDMI-1 connected primary 2560x1440+0+0 (normal) 597mm x 336mm\n\
                  \x20  2560x1440     59.95*+\n";
    assert_eq!(monitor_name(Some(output)), "HDMI-1");
    assert_eq!(monitor_name(Some("Screen 0: minimum 8 x 8\n")), "");
    assert_eq!(monitor_name(None), "");
}

#[test]
fn detected_resolutions_hold_an_x() {
    let xrandr = "eDP-1 connected 1920x1200 (normal)\n";
    let found = resolution_from_output(ResolutionTool::Xrandr, xrandr).unwrap();
    assert!(found.contains('x'));
    let sway = "{\"active\":true,\"mode\":\"3840x2160@60\"}\n";
    assert!(resolution_from_output(ResolutionTool::Swaymsg, sway).unwrap().contains('x'));
    assert!(first_mode_resolution("1280x800\n").unwrap().contains('x'));
    match get_resolution(&[None, None, None, None]) {
        ResolutionStep::Resolved(r) => assert!(r.contains('x')),
        _ => panic!("expected the fallback"),
    }
}

#[test]
fn drm_entry_scan() {
    let entry = |path: &str, status: Option<&str>, modes: Option<&str>| DrmEntry {
        path: path.to_string(),
        status: status.map(|s| s.to_string()),
        modes: modes.map(|s| s.to_string()),
    };
    let entries = vec![
        entry("/sys/class/drm/version", None, None),
        entry("/sys/class/drm/card0-DP-1", Some("disconnected\n"), Some("")),
        entry("/sys/class/drm/card0-HDMI-A-1", Some("connected\n"), None),
        entry("/sys/class/drm/card0-eDP-1", Some("connected\n"), Some("2256x1504\n1920x1200\n")),
        entry("/sys/class/drm/card1-DP-2", Some("connected\n"), Some("3840x2160\n")),
    ];
    assert_eq!(drm_resolution(&entries), Some("2256x1504".to_string()));
    assert_eq!(drm_entry_resolution(&entries[1]), None);
    assert_eq!(drm_entry_resolution(&entries[4]), Some("3840x2160".to_string()));
    let head: Vec<DrmEntry> = entries.into_iter().take(3).collect();
    assert_eq!(drm_resolution(&head), None);
}
