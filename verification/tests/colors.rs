use styli_rs::wal::{
    accent_order, build_ansi_sequences, colors_file_contents, hex_to_rgb, other_script_steps,
    palette_preview, rgb_to_hex, sequences_file_contents, wal_image, wallust_args, Backend,
    ColorScheme, Colorspace, Palette,
};

fn scheme() -> ColorScheme {
    let mut colors: Vec<Option<String>> = vec![None; 16];
    colors[0] = Some("#000000".to_string());
    colors[15] = Some("#ffffff".to_string());
    ColorScheme {
        background: Some("#101010".to_string()),
        foreground: Some("#eeeeee".to_string()),
        colors,
    }
}

#[test]
fn hex_round_trip() {
    assert_eq!(rgb_to_hex(0, 0, 0), "#000000");
    assert_eq!(rgb_to_hex(255, 16, 10), "#ff100a");
    for (r, g, b) in [(0u8, 0u8, 0u8), (255, 16, 10), (1, 128, 254)] {
        assert_eq!(hex_to_rgb(&rgb_to_hex(r, g, b)), (r, g, b));
    }
}

#[test]
fn hex_to_rgb_edge_cases() {
    assert_eq!(hex_to_rgb("##AbCdEf"), (0xab, 0xcd, 0xef));
    assert_eq!(hex_to_rgb("zz10+f"), (0, 0x10, 0x0f));
    assert_eq!(hex_to_rgb("-1ff00"), (0, 0xff, 0));
    assert_eq!(hex_to_rgb("aabbccdd"), (0xaa, 0xbb, 0xcc));
    assert_eq!(hex_to_rgb("éé00"), (0, 0, 0));
}

#[test]
fn ansi_sequences() {
    let s = build_ansi_sequences(&scheme());
    assert_eq!(
        s,
        "\x1b]4;0;#000000\x1b\\\x1b]4;15;#ffffff\x1b\\\x1b]11;#101010\x1b\\\x1b]10;#eeeeee\x1b\\"
    );
    let mut no_fg = scheme();
    no_fg.foreground = None;
    assert_eq!(
        build_ansi_sequences(&no_fg),
        "\x1b]4;0;#000000\x1b\\\x1b]4;15;#ffffff\x1b\\"
    );
}

#[test]
fn cache_files() {
    assert_eq!(colors_file_contents(&scheme()), "#000000\n#ffffff\n");
    assert_eq!(
        sequences_file_contents(&scheme()),
        "\x1b]4;0;#000000\\15;#ffffff\x1b\\\x1b]11;#101010\x1b\\\x1b]10;#eeeeee\x1b\\"
    );
    let empty = ColorScheme { background: None, foreground: None, colors: Vec::new() };
    assert_eq!(colors_file_contents(&empty), "");
    assert_eq!(sequences_file_contents(&empty), "\x1b]4;\x1b\\");
}

#[test]
fn preview() {
    assert_eq!(
        palette_preview(&scheme()),
        "\nGenerated Color Palette:\n\ncolor0: #000000\ncolor15: #ffffff\n\nBackground: #101010\nForeground: #eeeeee\n\n"
    );
}

#[test]
fn palette_layout() {
    let accents: Vec<String> = (1..=6).map(|i| format!("#00000{}", i)).collect();
    let s = ColorScheme::from_palette(
        "#bg0000".to_string(),
        "#fg0000".to_string(),
        "#c00000".to_string(),
        &accents,
        "#c70000".to_string(),
        "#c80000".to_string(),
        "#cf0000".to_string(),
    );
    assert_eq!(s.colors.len(), 16);
    for k in 1..=6 {
        assert_eq!(s.colors[k], s.colors[k + 8]);
        assert_eq!(s.colors[k].as_deref(), Some(accents[k - 1].as_str()));
    }
    assert_eq!(s.colors[0].as_deref(), Some("#c00000"));
    assert_eq!(s.colors[7].as_deref(), Some("#c70000"));
    assert_eq!(s.colors[8].as_deref(), Some("#c80000"));
    assert_eq!(s.colors[15].as_deref(), Some("#cf0000"));
}

#[test]
fn option_arguments() {
    assert_eq!(Backend::from_arg(Some("kmeans")), Backend::Kmeans);
    assert_eq!(Backend::from_arg(Some("wal")), Backend::Wal);
    assert_eq!(Backend::from_arg(Some("Kmeans")), Backend::FastResize);
    assert_eq!(Backend::from_arg(None), Backend::FastResize);
    assert_eq!(Colorspace::from_arg(Some("lch")), Colorspace::Lch);
    assert_eq!(Colorspace::from_arg(Some("salience")), Colorspace::Lab);
    assert_eq!(Palette::from_arg(Some("light")), Palette::Light);
    assert_eq!(Palette::from_arg(Some("dark16")), Palette::Dark16);
    assert_eq!(Palette::from_arg(None), Palette::Dark);
    assert_eq!(Palette::for_light(true), Palette::Light);
    assert_eq!(Palette::for_light(false), Palette::Dark);
}

#[test]
fn wal_command_pieces() {
    assert_eq!(accent_order(), vec![5, 4, 3, 2, 1, 0]);
    assert_eq!(wal_image(Some("a.png"), Some("b.png")), Ok("a.png"));
    assert_eq!(wal_image(None, Some("b.png")), Ok("b.png"));
    assert_eq!(
        wal_image::<&str>(None, None),
        Err("No image provided. Use: styli-rs wal <image>".to_string())
    );
    assert!(other_script_steps(None).is_empty());
    let steps = other_script_steps(Some("notify-send done"));
    assert_eq!(steps.len(), 1);
    assert_eq!(steps[0].program, "sh");
    assert_eq!(steps[0].args, vec!["-c".to_string(), "notify-send done".to_string()]);
    assert!(steps[0].on_spawn_error.is_none() && steps[0].on_failure.is_none());
    assert_eq!(wallust_args("w.png", false, false), vec!["run", "w.png"]);
    assert_eq!(wallust_args("w.png", true, false), vec!["run", "w.png", "--light"]);
    assert_eq!(wallust_args("w.png", false, true), vec!["run", "w.png", "--preview"]);
}
