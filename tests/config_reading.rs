use enjoy::document::ConfigDocument;
use enjoy::document::ConfigError;
use enjoy::settings::Settings;
use indexmap::IndexMap;

fn test_ini_template() -> ConfigDocument {
    let content = String::from(
        "
            [options]
            retroarch = /usr/bin/retroarch
            retroarch_arguments = --verbose --set-shader \"\"
            which = 0
            norun = true
            libretro_directory=

            [retroarch]
            which = 1
            doesnotexist
            doesexist = 0

            [cores]
            snes = snes9x
            md = genesis_plus_gx_libretro.so
            mdwide = genesis_plus_gx_wide
            gb gbc = sameboy


            [/bin*]
            core = md
            libretro = mednafen_psx_hw

            [path_without_slash]
            core = snes

            [.smc .sfc]
            core = snes

            [.mdwide]
            core = mdwide
            ",
    );
    match ConfigDocument::parse(&content) {
        Ok(ini) => ini,
        Err(e) => panic!("{:?}", e),
    }
}

fn test_ini_cores_rules_template() -> IndexMap<String, String> {
    let mut cores_rules = IndexMap::new();

    cores_rules.insert("snes".to_string(), String::from("snes9x"));
    cores_rules.insert("md".to_string(), String::from("genesis_plus_gx_libretro.so"));
    cores_rules.insert("mdwide".to_string(), String::from("genesis_plus_gx_wide"));

    cores_rules
}

#[test]
fn read_config_options_retroarch_arguments() {
    let mut settings = Settings::new();
    let ini = test_ini_template();

    Settings::read_config_options(&mut settings, &ini, &vec!["options".to_string()]).unwrap();

    assert_eq!(vec!["--verbose", "--set-shader", ""], settings.retroarch_arguments);
}

#[test]
fn read_config_options_path() {
    let mut settings = Settings::new();
    let ini = test_ini_template();

    Settings::read_config_options(&mut settings, &ini, &vec!["options".to_string()]).unwrap();

    assert_eq!(Some(String::from("/usr/bin/retroarch")), settings.retroarch);
    assert_eq!(Some(String::from("")), settings.libretro_directory);
    assert_eq!(None, settings.retroarch_config);
}

#[test]
fn read_config_options_bool() {
    let mut settings = Settings::new();
    let ini = test_ini_template();

    Settings::read_config_options(&mut settings, &ini, &vec!["options".to_string()]).unwrap();

    assert_eq!(Some(false), settings.which);
    assert_eq!(Some(true), settings.norun);
}

#[test]
fn read_config_options_skipped_without_section_name() {
    let mut settings = Settings::new();
    let ini = test_ini_template();

    Settings::read_config_options(&mut settings, &ini, &vec!["cores".to_string()]).unwrap();

    assert_eq!(None, settings.retroarch);
    assert_eq!(None, settings.norun);
}

#[test]
fn read_config_options_game_and_filter() {
    let ini = ConfigDocument::parse("[options]\ngame = ~/roms/mario.smc\nfilter = mario\nstrict = YES\nwhich_command = on\n").unwrap();
    let mut settings = Settings::new();
    settings.games = vec![String::from("first.smc")];
    Settings::read_config_options(&mut settings, &ini, &ini.sections()).unwrap();
    assert_eq!(settings.games, vec![String::from("first.smc"), String::from("~/roms/mario.smc")]);
    assert_eq!(settings.filter, Some(vec![String::from("mario")]));
    assert_eq!(settings.strict, Some(true));
    assert_eq!(settings.which_command, Some(true));
}

#[test]
fn read_config_options_bad_flag_is_error() {
    let ini = ConfigDocument::parse("[options]\nfullscreen = maybe\n").unwrap();
    let mut settings = Settings::new();
    let r = Settings::read_config_options(&mut settings, &ini, &ini.sections());
    assert!(matches!(r, Err(ConfigError::NotABoolean(k)) if k == "fullscreen"));
}

#[test]
fn read_config_options_broken_quotes_give_no_arguments() {
    let ini = ConfigDocument::parse("[options]\nretroarch_arguments = --set-shader \"unclosed\n").unwrap();
    let mut settings = Settings::new();
    settings.retroarch_arguments = vec![String::from("--old")];
    Settings::read_config_options(&mut settings, &ini, &ini.sections()).unwrap();
    assert!(settings.retroarch_arguments.is_empty());
}

#[test]
fn read_config_cores_rules() {
    let ini = test_ini_template();

    let rules = Settings::read_config_cores_rules(&ini);

    assert_eq!(Some(&String::from("snes9x")), rules.get("snes"));
    assert_eq!(Some(&String::from("genesis_plus_gx_libretro.so")), rules.get("md"));
    assert_eq!(None, rules.get("retroarch"));
}

#[test]
fn read_config_cores_rules_several_aliases_per_key() {
    let ini = test_ini_template();

    let rules = Settings::read_config_cores_rules(&ini);

    assert_eq!(Some(&String::from("sameboy")), rules.get("gb"));
    assert_eq!(Some(&String::from("sameboy")), rules.get("gbc"));
    assert_eq!(None, rules.get("gb gbc"));
    assert_eq!(rules.len(), 5);
}

#[test]
fn read_config_cores_rules_skips_empty_values() {
    let ini = ConfigDocument::parse("[cores]\nsnes =\nmd\ngb = sameboy\n").unwrap();
    let rules = Settings::read_config_cores_rules(&ini);
    assert_eq!(rules.len(), 1);
    assert_eq!(Some(&String::from("sameboy")), rules.get("gb"));
}

#[test]
fn read_config_extension_rules() {
    let ini = test_ini_template();

    let ext_rules = Settings::read_config_extension_rules(Some(&test_ini_cores_rules_template()), &ini, &ini.sections());

    assert_eq!(Some(&String::from("snes9x")), ext_rules.get("sfc"));
    assert_eq!(Some(&String::from("genesis_plus_gx_wide")), ext_rules.get("mdwide"));
    assert_eq!(None, ext_rules.get(""));
}

#[test]
fn read_config_extension_rules_libretro_key_wins() {
    let ini = ConfigDocument::parse("[.md .gen]\ncore = md\nlibretro = picodrive\n").unwrap();
    let ext_rules = Settings::read_config_extension_rules(Some(&test_ini_cores_rules_template()), &ini, &ini.sections());
    assert_eq!(Some(&String::from("picodrive")), ext_rules.get("md"));
    assert_eq!(Some(&String::from("picodrive")), ext_rules.get("gen"));
}

#[test]
fn read_config_extension_rules_without_alias_table() {
    let ini = ConfigDocument::parse("[.smc]\ncore = snes\n").unwrap();
    let ext_rules = Settings::read_config_extension_rules(None, &ini, &ini.sections());
    assert_eq!(ext_rules.len(), 0);
}

#[test]
fn read_config_directory_rules() {
    let ini = test_ini_template();

    let dir_rules = Settings::read_config_directory_rules(Some(&test_ini_cores_rules_template()), &ini, &ini.sections());

    assert_eq!(Some(&String::from("mednafen_psx_hw")), dir_rules.get("/bin*"));
    assert_ne!(Some(&String::from("md")), dir_rules.get("/bin"));
    assert_eq!(None, dir_rules.get("path_without_slash"));
}

#[test]
fn read_config_directory_rules_expand_home() {
    let ini = ConfigDocument::parse("[~/roms/genesis_wide*]\ncore = mdwide\n").unwrap();
    let dir_rules = Settings::read_config_directory_rules(Some(&test_ini_cores_rules_template()), &ini, &ini.sections());
    assert_eq!(dir_rules.len(), 1);
    let (pattern, core) = dir_rules.get_index(0).unwrap();
    assert!(pattern.ends_with("/roms/genesis_wide*"));
    assert!(!pattern.starts_with('~'));
    assert_eq!(core, "genesis_plus_gx_wide");
}

#[test]
fn parse_rejects_unclosed_section() {
    let r = ConfigDocument::parse("[options\nnorun = 1\n");
    assert!(matches!(r, Err(ConfigError::Syntax(_))));
}

#[test]
fn document_get_and_bool() {
    let ini = ConfigDocument::parse("key0 = top\n[s]\na = 1\nb\nc = Off\n").unwrap();
    assert_eq!(ini.sections(), vec![String::from("default"), String::from("s")]);
    assert_eq!(ini.get("default", "key0"), Some(String::from("top")));
    assert_eq!(ini.get("s", "a"), Some(String::from("1")));
    assert_eq!(ini.get("s", "b"), None);
    assert_eq!(ini.get("t", "a"), None);
    assert_eq!(ini.getboolcoerce("s", "a").unwrap(), Some(true));
    assert_eq!(ini.getboolcoerce("s", "c").unwrap(), Some(false));
    assert_eq!(ini.getboolcoerce("s", "missing").unwrap(), None);
}

#[test]
fn new_from_config_reads_everything() {
    let text = "[options]\nlibretro_directory = /cores\nfullscreen = 1\n\n[cores]\nsnes = snes9x\n\n[.smc .SFC]\ncore = snes\n\n[/roms/psx/]\nlibretro = swanstation\n";
    let s = Settings::new_from_config(String::from("/home/u/.config/enjoy/default.ini"), text).unwrap();
    assert_eq!(s.config, Some(String::from("/home/u/.config/enjoy/default.ini")));
    assert_eq!(s.libretro_directory, Some(String::from("/cores")));
    assert_eq!(s.fullscreen, Some(true));
    assert_eq!(s.cores_rules.as_ref().unwrap().get("snes"), Some(&String::from("snes9x")));
    let ext = s.extension_rules.as_ref().unwrap();
    assert_eq!(ext.get("smc"), Some(&String::from("snes9x")));
    assert_eq!(ext.get("SFC"), Some(&String::from("snes9x")));
    assert_eq!(s.directory_rules.as_ref().unwrap().get("/roms/psx/"), Some(&String::from("swanstation")));
}

#[test]
fn new_from_config_empty_tables_stay_absent() {
    let s = Settings::new_from_config(String::from("/c.ini"), "[options]\nnorun = 0\n").unwrap();
    assert!(s.cores_rules.is_none());
    assert!(s.extension_rules.is_none());
    assert!(s.directory_rules.is_none());
    assert_eq!(s.norun, Some(false));
}

#[test]
fn new_from_config_errors() {
    assert!(matches!(Settings::new_from_config(String::from("/c.ini"), "[x"), Err(ConfigError::Syntax(_))));
    assert!(matches!(
        Settings::new_from_config(String::from("/c.ini"), "[options]\nnostdin = perhaps\n"),
        Err(ConfigError::NotABoolean(_))
    ));
}
