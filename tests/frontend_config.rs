use enjoy::document::ConfigDocument;
use enjoy::document::ConfigError;
use enjoy::retroarch::extract_default_inikeys;
use enjoy::retroarch::parse_retroarch_config;
use enjoy::settings::Settings;

#[test]
fn extract_default_inikeys_single() {
    let inidata = ConfigDocument::parse(
        "
                video_vsync = \"true\"
                libretro_directory = \"/home/user/.config/retroarch/cores\"
                audio_device = \"\"
                ",
    )
    .expect("Could not create inidata.");

    let lookup_keys: Vec<String> = vec!["libretro_directory".to_string()];

    let found_keys = extract_default_inikeys(&inidata, &lookup_keys);

    assert_eq!(
        "/home/user/.config/retroarch/cores".to_string(),
        found_keys.get("libretro_directory").unwrap().to_string()
    );
    assert_eq!(None, found_keys.get("video_vsync"));
}

#[test]
fn extract_default_inikeys_multiple() {
    let inidata = ConfigDocument::parse(
        "
                video_vsync = \"true\"
                libretro_directory = \"Ram\u{221a}\u{2260}rez\"
                libretro_directory = \"/home/user/.config/retroarch/cores\"
                audio_device = \"\"
                ",
    )
    .expect("Could not create inidata.");

    let lookup_keys: Vec<String> = vec![
        "audio_device".to_string(),
        "video_vsync".to_string(),
        "libretro_directory".to_string(),
    ];

    let found_keys = extract_default_inikeys(&inidata, &lookup_keys);

    assert_eq!("".to_string(), found_keys.get("audio_device").unwrap().to_string());
    assert_eq!("true".to_string(), found_keys.get("video_vsync").unwrap().to_string());
    assert_eq!(
        "/home/user/.config/retroarch/cores".to_string(),
        found_keys.get("libretro_directory").unwrap().to_string()
    );
}

#[test]
fn parse_retroarch_config_strips_quotes() {
    let found = parse_retroarch_config("a = \"\"\"x\"\"\nb = \"y\"\n", &vec!["a".to_string()]).unwrap();
    assert_eq!(found.get("a"), Some(&String::from("x")));
    assert_eq!(found.get("b"), None);
}

#[test]
fn parse_retroarch_config_syntax_error() {
    let r = parse_retroarch_config("[broken\n", &vec!["a".to_string()]);
    assert!(matches!(r, Err(ConfigError::Syntax(_))));
}

#[test]
fn new_from_retroarch_config_reads_core_directory() {
    let text = "video_vsync = \"true\"\nlibretro_directory = \"~/.config/retroarch/cores\"\n";
    let s = Settings::new_from_retroarch_config(String::from("/home/u/.config/retroarch/retroarch.cfg"), text).unwrap();
    assert_eq!(s.retroarch_config, Some(String::from("/home/u/.config/retroarch/retroarch.cfg")));
    assert_eq!(s.libretro_directory, Some(String::from("~/.config/retroarch/cores")));
    assert_eq!(s.retroarch, None);
}

#[test]
fn new_from_retroarch_config_without_directory() {
    let s = Settings::new_from_retroarch_config(String::from("/r.cfg"), "video_vsync = \"true\"\n").unwrap();
    assert_eq!(s.libretro_directory, None);
}
