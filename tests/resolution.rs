use enjoy::command::RunCommand;
use enjoy::resolve::BuildError;
use enjoy::file::core_path_candidate;
use enjoy::retroarch::LIBRETRO_SUFFIX;
use enjoy::settings::Settings;
use indexmap::IndexMap;

fn table(entries: &[(&str, &str)]) -> IndexMap<String, String> {
    let mut m = IndexMap::new();
    for (k, v) in entries {
        m.insert(k.to_string(), v.to_string());
    }
    m
}

fn games(list: &[&str]) -> Vec<String> {
    list.iter().map(|g| g.to_string()).collect()
}

#[test]
fn libretro_from_ext() {
    let mut ext_rules = IndexMap::new();
    ext_rules.insert("sfc".to_string(), String::from("mesen-s"));
    ext_rules.insert("smc".to_string(), String::from("mesen-s"));
    ext_rules.insert("gb".to_string(), String::from("sameboy"));
    ext_rules.insert("gbc".to_string(), String::from("sameboy"));

    let settings = Settings {
        retroarch: Some(String::from("retroarch")),
        filter: Some(vec!["[!]".to_string()]),
        highlander: Some(true),
        norun: Some(true),
        extension_rules: Some(ext_rules),
        ..Settings::new()
    };

    assert_eq!(None, settings.libretro_from_ext(""));
    assert_eq!(None, settings.libretro_from_ext(".sfc"));
    assert_eq!(Some(String::from("mesen-s")), settings.libretro_from_ext("game.sfc"));
}

#[test]
fn libretro_from_ext_ignores_extension_case() {
    let settings = Settings {
        extension_rules: Some(table(&[("sfc", "/cores/snes9x_libretro.so")])),
        ..Settings::new()
    };
    assert_eq!(Some(String::from("/cores/snes9x_libretro.so")), settings.libretro_from_ext("/roms/Mario.SFC"));
    assert_eq!(Some(String::from("/cores/snes9x_libretro.so")), settings.libretro_from_ext("/roms/Mario.sfc"));
}

#[test]
fn libretro_from_dir() {
    let mut dir_rules = IndexMap::new();
    dir_rules.insert("/home/user/Emulatoren/games/psx/".to_string(), String::from("mednafen_psx_hw"));
    dir_rules.insert("/home/user/Emulatoren/games/psx*/".to_string(), String::from("swanstation"));

    let settings = Settings {
        retroarch: Some(String::from("retroarch")),
        filter: Some(vec!["[!]".to_string()]),
        highlander: Some(true),
        norun: Some(true),
        directory_rules: Some(dir_rules),
        ..Settings::new()
    };

    assert_eq!(None, settings.libretro_from_dir(""));
    assert_eq!(
        Some(String::from("mednafen_psx_hw")),
        settings.libretro_from_dir("/home/user/Emulatoren/games/psx/Metal Gear Solid.chd")
    );
    assert_eq!(
        Some(String::from("swanstation")),
        settings.libretro_from_dir("/home/user/Emulatoren/games/psx\u{e2}\u{17d}\u{2021}/psx_mods/Symphony of the Night (hack).chd")
    );
}

#[test]
fn libretro_from_dir_is_a_full_match_not_a_prefix() {
    let settings = Settings {
        directory_rules: Some(table(&[("/home/user/psx*", "glob"), ("/home/user/psx", "exact")])),
        ..Settings::new()
    };
    assert_eq!(Some(String::from("glob")), settings.libretro_from_dir("/home/user/psx_mods/game.chd"));
    let exact_only = Settings {
        directory_rules: Some(table(&[("/home/user/psx", "exact")])),
        ..Settings::new()
    };
    assert_eq!(None, exact_only.libretro_from_dir("/home/user/psx/sub/game.chd"));
    assert_eq!(Some(String::from("exact")), exact_only.libretro_from_dir("/home/user/psx/game.chd"));
    let case = Settings {
        directory_rules: Some(table(&[("/home/user/PSX", "exact")])),
        ..Settings::new()
    };
    assert_eq!(None, case.libretro_from_dir("/home/user/psx/game.chd"));
}

#[test]
fn select_game_first() {
    let mut settings = Settings {
        games: games(&["zelda.smc", "mario.smc", "sonic.md", "game4.gb"]),
        retroarch: Some(String::from("retroarch")),
        ..Settings::new()
    };

    assert_eq!(Some(String::from("zelda.smc")), settings.select_game());

    settings.filter = Some(vec!["m".to_string()]);
    assert_eq!(Some(String::from("mario.smc")), settings.select_game());

    settings.filter = Some(vec!["gb".to_string()]);
    assert_eq!(None, settings.select_game());
}

#[test]
fn select_game_empty_list() {
    let settings = Settings::new();
    assert_eq!(None, settings.select_game());
}

#[test]
fn select_game_wildcards_ignore_case() {
    let mut settings = Settings {
        games: games(&["/roms/zelda.smc", "/roms/MARIO.sfc"]),
        filter: Some(vec!["mario*".to_string()]),
        ..Settings::new()
    };
    assert_eq!(Some(String::from("/roms/MARIO.sfc")), settings.select_game());
    settings.games = games(&["/roms/zelda.smc", "/roms/mario_world.smc"]);
    assert_eq!(Some(String::from("/roms/mario_world.smc")), settings.select_game());
}

#[test]
fn select_game_strict_is_exact() {
    let mut settings = Settings {
        games: games(&["/roms/mario_world.smc", "/roms/MARIO.sfc"]),
        filter: Some(vec!["mario".to_string()]),
        strict: Some(true),
        ..Settings::new()
    };
    assert_eq!(None, settings.select_game());
    settings.filter = Some(vec!["mario*".to_string()]);
    assert_eq!(Some(String::from("/roms/mario_world.smc")), settings.select_game());
    settings.filter = Some(vec!["MARIO".to_string()]);
    assert_eq!(Some(String::from("/roms/MARIO.sfc")), settings.select_game());
}

#[test]
fn select_game_all_filters_must_match() {
    let settings = Settings {
        games: games(&["Super Mario World (U).smc", "Super Mario World (U) [!].smc", "Zelda [!].smc"]),
        filter: Some(vec!["mario".to_string(), "?!?".to_string()]),
        ..Settings::new()
    };
    assert_eq!(Some(String::from("Super Mario World (U) [!].smc")), settings.select_game());
}

#[test]
fn wildmatch_pattern_wraps_unless_strict() {
    let mut settings = Settings::new();
    assert_eq!(settings.wildmatch_pattern("Mario"), String::from("*mario*"));
    assert_eq!(settings.to_lowercase(&String::from("MaRiO")), String::from("mario"));
    settings.strict = Some(true);
    assert_eq!(settings.wildmatch_pattern("Mario"), String::from("Mario"));
    assert_eq!(settings.to_lowercase(&String::from("MaRiO")), String::from("MaRiO"));
}

#[test]
fn resolve_explicit_plugin_wins_over_alias() {
    let settings = Settings {
        libretro: Some(String::from("/cores/mesen-s_libretro.so")),
        core: Some(String::from("snes")),
        extension_rules: Some(table(&[("smc", "/cores/snes9x_libretro.so")])),
        ..Settings::new()
    };
    assert_eq!(settings.resolve_libretro("/roms/mario.smc").unwrap(), String::from("/cores/mesen-s_libretro.so"));
}

#[test]
fn resolve_alias_without_table_is_error() {
    let settings = Settings {
        core: Some(String::from("snes")),
        extension_rules: Some(table(&[("smc", "/cores/snes9x_libretro.so")])),
        ..Settings::new()
    };
    assert_eq!(settings.resolve_libretro("/roms/mario.smc"), Err(BuildError::NoCoreRules));
}

#[test]
fn resolve_missing_alias_falls_through_to_rules() {
    let settings = Settings {
        core: Some(String::from("gba")),
        cores_rules: Some(table(&[("snes", "snes9x")])),
        directory_rules: Some(table(&[("/roms/snes", "bsnes")])),
        extension_rules: Some(table(&[("smc", "snes9x")])),
        ..Settings::new()
    };
    assert_eq!(settings.resolve_libretro("/roms/snes/mario.smc").unwrap(), String::from("bsnes"));
    assert_eq!(settings.resolve_libretro("/roms/other/mario.smc").unwrap(), String::from("snes9x"));
    assert_eq!(settings.resolve_libretro("/roms/other/mario.md"), Err(BuildError::LibretroNotSet));
}

#[test]
fn resolve_alias_before_rules() {
    let settings = Settings {
        core: Some(String::from("snes")),
        cores_rules: Some(table(&[("snes", "snes9x")])),
        directory_rules: Some(table(&[("/roms/snes", "bsnes")])),
        ..Settings::new()
    };
    assert_eq!(settings.resolve_libretro("/roms/snes/mario.smc").unwrap(), String::from("snes9x"));
}

#[test]
fn extension_rule_end_to_end() {
    let settings = Settings {
        games: games(&["/roms/mario.smc"]),
        extension_rules: Some(table(&[("smc", "/cores/snes9x_libretro.so")])),
        ..Settings::new()
    };
    let game = settings.select_game().unwrap();
    let core = settings.resolve_libretro(&game).unwrap();
    let candidate = core_path_candidate(settings.libretro_directory.clone(), core, LIBRETRO_SUFFIX);
    assert_eq!(candidate, String::from("/cores/snes9x_libretro.so"));
}

#[test]
fn alias_with_directory_end_to_end() {
    let settings = Settings {
        games: games(&["/roms/mario.smc"]),
        core: Some(String::from("snes")),
        cores_rules: Some(table(&[("snes", "snes9x")])),
        libretro_directory: Some(String::from("/cores")),
        ..Settings::new()
    };
    let core = settings.resolve_libretro("/roms/mario.smc").unwrap();
    assert_eq!(core, String::from("snes9x"));
    let candidate = core_path_candidate(settings.libretro_directory.clone(), core, LIBRETRO_SUFFIX);
    assert_eq!(candidate, String::from("/cores/snes9x_libretro.so"));
}

#[test]
fn build_command_missing_core_file() {
    let settings = Settings {
        games: games(&["/roms/snes/mario.smc"]),
        core: Some(String::from("snes")),
        cores_rules: Some(table(&[("snes", "snes9x")])),
        libretro_directory: Some(String::from("/surely/not/here")),
        norun: Some(true),
        ..Settings::new()
    };
    assert!(matches!(settings.build_command(), Err(BuildError::LibretroNotFound)));
}

#[test]
fn assemble_command_full_argument_list() {
    let settings = Settings {
        games: games(&["/roms/snes/mario.smc"]),
        retroarch: Some(String::from("retroarch")),
        retroarch_config: Some(String::from("/etc/retroarch.cfg")),
        retroarch_arguments: games(&["--verbose", "--set-shader", ""]),
        core: Some(String::from("snes")),
        cores_rules: Some(table(&[("snes", "snes9x")])),
        libretro_directory: Some(String::from("/cores")),
        fullscreen: Some(true),
        norun: Some(true),
        ..Settings::new()
    };
    let game = settings.game_argument(settings.select_game(), None).unwrap();
    let core = settings.resolve_libretro(&game).unwrap();
    let candidate = core_path_candidate(settings.libretro_directory.clone(), core, LIBRETRO_SUFFIX);
    let run: RunCommand = settings.assemble_command(game, Some(candidate)).unwrap();
    assert_eq!(run.program, String::from("retroarch"));
    assert_eq!(run.game, String::from("/roms/snes/mario.smc"));
    assert_eq!(run.libretro, String::from("/cores/snes9x_libretro.so"));
    assert_eq!(
        run.arguments,
        games(&[
            "/roms/snes/mario.smc",
            "--libretro",
            "/cores/snes9x_libretro.so",
            "--config",
            "/etc/retroarch.cfg",
            "--fullscreen",
            "--verbose",
            "--set-shader",
            "",
        ])
    );
}

#[test]
fn assemble_command_minimal() {
    let settings = Settings::new();
    let run = settings.assemble_command(String::new(), Some(String::from("/c/x_libretro.so"))).unwrap();
    assert_eq!(run.program, String::new());
    assert_eq!(run.arguments, games(&["", "--libretro", "/c/x_libretro.so"]));
}

#[test]
fn build_command_without_game() {
    let settings = Settings {
        libretro: Some(String::from("/surely/not/here/x_libretro.so")),
        ..Settings::new()
    };
    assert!(matches!(settings.build_command(), Err(BuildError::NoGame)));
    let simulated = Settings {
        libretro: Some(String::from("/surely/not/here/x_libretro.so")),
        norun: Some(true),
        ..Settings::new()
    };
    assert!(matches!(simulated.build_command(), Err(BuildError::LibretroNotFound)));
}

#[test]
fn build_command_missing_game_file() {
    let settings = Settings {
        games: games(&["/surely/not/here/enjoy_missing.smc"]),
        libretro: Some(String::from("/surely/not/here/x_libretro.so")),
        resolve: Some(true),
        ..Settings::new()
    };
    assert!(matches!(settings.build_command(), Err(BuildError::GameNotFound)));
    let simulated = Settings {
        games: games(&["/surely/not/here/enjoy_missing.smc"]),
        libretro: Some(String::from("/surely/not/here/x_libretro.so")),
        resolve: Some(true),
        norun: Some(true),
        ..Settings::new()
    };
    assert!(matches!(simulated.build_command(), Err(BuildError::LibretroNotFound)));
}

#[test]
fn build_command_alias_without_table() {
    let settings = Settings {
        games: games(&["/roms/mario.smc"]),
        core: Some(String::from("snes")),
        ..Settings::new()
    };
    assert!(matches!(settings.build_command(), Err(BuildError::NoCoreRules)));
}

#[test]
fn build_command_no_core() {
    let settings = Settings {
        games: games(&["/roms/mario.smc"]),
        norun: Some(true),
        ..Settings::new()
    };
    assert!(matches!(settings.build_command(), Err(BuildError::LibretroNotSet)));
}

#[test]
fn assemble_command_without_core_file() {
    let settings = Settings::new();
    assert!(matches!(settings.assemble_command(String::from("g.smc"), None), Err(BuildError::LibretroNotFound)));
}

#[test]
fn game_argument_cases() {
    let settings = Settings::new();
    assert_eq!(settings.game_argument(None, None), Err(BuildError::NoGame));
    assert_eq!(settings.game_argument(Some(String::from("a.smc")), None), Err(BuildError::GameNotFound));
    assert_eq!(
        settings.game_argument(Some(String::from("a.smc")), Some(String::from("/r/a.smc"))),
        Ok(String::from("/r/a.smc"))
    );
    let simulated = Settings { norun: Some(true), ..Settings::new() };
    assert_eq!(simulated.game_argument(None, None), Ok(String::new()));
    assert_eq!(simulated.game_argument(Some(String::from("a.smc")), None), Ok(String::from("a.smc")));
}

#[test]
fn find_core_match_compares_stems() {
    let settings = Settings {
        cores_rules: Some(table(&[
            ("snes", "snes9x"),
            ("sfc", "/cores/snes9x_libretro.so"),
            ("gb", "sameboy"),
            ("old", "snes9x_libretro"),
        ])),
        ..Settings::new()
    };
    assert_eq!(
        settings.find_core_match("/cores/snes9x_libretro.so"),
        games(&["snes", "sfc", "old"])
    );
    assert!(settings.find_core_match("/cores/mgba_libretro.so").is_empty());
    assert!(Settings::new().find_core_match("/cores/snes9x_libretro.so").is_empty());
}

#[test]
fn core_names_in_table_order() {
    let settings = Settings {
        cores_rules: Some(table(&[("snes", "snes9x"), ("gb", "sameboy"), ("gbc", "sameboy")])),
        ..Settings::new()
    };
    assert_eq!(settings.core_names(), games(&["snes", "gb", "gbc"]));
}

#[test]
fn stems_and_extensions_split_at_last_dot() {
    let settings = Settings {
        games: games(&["/roms/.smc", "/roms/super.mario.smc"]),
        filter: Some(vec!["super.mario".to_string()]),
        strict: Some(true),
        extension_rules: Some(table(&[("smc", "snes9x"), ("", "empty")])),
        ..Settings::new()
    };
    assert_eq!(Some(String::from("/roms/super.mario.smc")), settings.select_game());
    assert_eq!(None, settings.libretro_from_ext("/roms/.smc"));
    assert_eq!(Some(String::from("snes9x")), settings.libretro_from_ext("/roms/super.mario.smc"));
    assert_eq!(Some(String::from("empty")), settings.libretro_from_ext("/roms/game."));
}
