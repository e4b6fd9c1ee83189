use enjoy::file::core_path_candidate;
use enjoy::file::endswith;
use enjoy::file::tilde;
use enjoy::file::to_fullpath;
use enjoy::file::to_str;
use enjoy::file::trim_last_slash;
use enjoy::retroarch::libretro_fullpath;
use enjoy::retroarch::LIBRETRO_SUFFIX;

#[test]
fn to_fullpath_root() {
    let path = String::from("/");
    let output = to_fullpath(&path, false);

    assert_eq!(output, Some(String::from("/")));
}

#[test]
fn to_str_basic_file() {
    let path = String::from("/home/user/.vimrc");
    let output = to_str(Some(&path));

    assert_eq!(output, "/home/user/.vimrc".to_string());
}

#[test]
fn to_str_absent_is_empty() {
    assert_eq!(to_str(None), String::new());
}

#[test]
fn endswith_libretroso_no_need() {
    let path = String::from("snes9x_libretro.so");
    let output = endswith("_libretro.so", path);

    assert_eq!(output, String::from("snes9x_libretro.so"));
}

#[test]
fn endswith_libretroso_add_suffix() {
    let path = String::from("snes9x");
    let output = endswith("_libretro.so", path);

    assert_eq!(output, String::from("snes9x_libretro.so"));
}

#[test]
fn endswith_libretroso_missing_ext() {
    let path = String::from("snes9x_libretro");
    let output = endswith("_libretro.so", path);

    assert_eq!(output, String::from("snes9x_libretro_libretro.so"));
}

#[test]
fn endswith_keeps_directory_and_is_idempotent() {
    let once = endswith("_libretro.so", String::from("/cores/snes9x"));
    assert_eq!(once, String::from("/cores/snes9x_libretro.so"));
    let twice = endswith("_libretro.so", once.clone());
    assert_eq!(twice, once);
}

#[test]
fn endswith_empty_suffix_changes_nothing() {
    assert_eq!(endswith("", String::from("snes9x")), String::from("snes9x"));
}

#[test]
fn trim_last_slash_removes_one_slash() {
    assert_eq!(trim_last_slash(String::from("/roms/psx/")), String::from("/roms/psx"));
    assert_eq!(trim_last_slash(String::from("/roms/psx//")), String::from("/roms/psx/"));
    assert_eq!(trim_last_slash(String::from("/roms/psx")), String::from("/roms/psx"));
    assert_eq!(trim_last_slash(String::new()), String::new());
}

#[test]
fn tilde_leaves_plain_paths() {
    assert_eq!(tilde("/usr/lib/cores"), String::from("/usr/lib/cores"));
    assert_eq!(tilde("~user/cores"), String::from("~user/cores"));
}

#[test]
fn tilde_expands_home_prefix() {
    let expanded = tilde("~/.config/enjoy");
    assert!(expanded.ends_with("/.config/enjoy"));
    assert!(!expanded.starts_with('~'));
}

#[test]
fn to_fullpath_keeps_absolute_plain_path() {
    let output = to_fullpath("/cores/snes9x_libretro.so", false);
    assert_eq!(output, Some(String::from("/cores/snes9x_libretro.so")));
}

#[test]
fn to_fullpath_resolves_dots() {
    let output = to_fullpath("/cores/../lib/./x.so", false);
    assert_eq!(output, Some(String::from("/lib/x.so")));
}

#[test]
fn to_fullpath_unknown_variable_fails() {
    let output = to_fullpath("/roms/$ENJOY_SURELY_UNSET_VARIABLE_42/x.smc", false);
    assert_eq!(output, None);
}

#[test]
fn to_fullpath_missing_file_fails_when_canonical() {
    let output = to_fullpath("/surely/not/here/enjoy_missing.smc", true);
    assert_eq!(output, None);
}

#[test]
fn core_candidate_absolute_core_unchanged() {
    let output = core_path_candidate(None, String::from("/cores/snes9x_libretro.so"), LIBRETRO_SUFFIX);
    assert_eq!(output, String::from("/cores/snes9x_libretro.so"));
}

#[test]
fn core_candidate_absolute_core_ignores_directory() {
    let output = core_path_candidate(
        Some(String::from("/elsewhere")),
        String::from("/cores/snes9x_libretro.so"),
        LIBRETRO_SUFFIX,
    );
    assert_eq!(output, String::from("/cores/snes9x_libretro.so"));
}

#[test]
fn core_candidate_joins_directory_and_adds_suffix() {
    let output = core_path_candidate(Some(String::from("/cores")), String::from("snes9x"), LIBRETRO_SUFFIX);
    assert_eq!(output, String::from("/cores/snes9x_libretro.so"));
}

#[test]
fn core_candidate_relative_without_directory() {
    let output = core_path_candidate(None, String::from("snes9x"), LIBRETRO_SUFFIX);
    assert_eq!(output, String::from("snes9x_libretro.so"));
}

#[test]
fn libretro_fullpath_existing_file() {
    let output = libretro_fullpath(Some(String::from("/")), Some(String::from("bin")), "");
    assert!(output.is_some());
    let output = libretro_fullpath(None, Some(String::from("/bin/..")), "");
    assert_eq!(output, Some(String::from("/")));
}

#[test]
fn libretro_fullpath_missing_file() {
    let output = libretro_fullpath(Some(String::from("/surely/not/here")), Some(String::from("snes9x")), LIBRETRO_SUFFIX);
    assert_eq!(output, None);
}

