//! The options that the command line gives, as plain values.

use vstd::prelude::*;

verus! {

/// The user configuration file read when the command line names none.
pub const DEFAULT_CONFIG: &'static str = "~/.config/enjoy/default.ini";

/// Options from the command line.  `games` are the positional paths, `retroarch_arguments` what
/// follows a standalone `--`; each flag is `true` when it was given.
#[derive(Debug)]
pub struct Opt {
    pub games: Vec<String>,
    pub retroarch_arguments: Vec<String>,
    pub config: String,
    pub open_config: bool,
    pub config_path: bool,
    pub retroarch: Option<String>,
    pub retroarch_config: Option<String>,
    pub libretro: Option<String>,
    pub libretro_directory: Option<String>,
    pub core: Option<String>,
    pub filter: Option<Vec<String>>,
    pub strict: bool,
    pub which: bool,
    pub which_command: bool,
    pub list_cores: bool,
    pub fullscreen: bool,
    pub resolve: bool,
    pub highlander: bool,
    pub noconfig: bool,
    pub norun: bool,
    pub nostdin: bool,
}

} // verus!
