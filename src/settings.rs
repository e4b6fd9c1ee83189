//! Settings layers: partial configurations gathered from the command line, the user
//! configuration file, stdin, built-in defaults and the frontend's own configuration, and the two
//! ways of merging one into another.

use vstd::prelude::*;

use indexmap::IndexMap;

use crate::arguments::Opt;
use crate::rules::rules_view;

verus! {

/// Rule table entries, in order.
pub type RulesView = Seq<(Seq<char>, Seq<char>)>;

/// What a settings layer holds, as mathematical values.
pub struct SettingsView {
    pub games: Seq<Seq<char>>,
    pub retroarch_arguments: Seq<Seq<char>>,
    pub config: Option<Seq<char>>,
    pub retroarch: Option<Seq<char>>,
    pub retroarch_config: Option<Seq<char>>,
    pub libretro: Option<Seq<char>>,
    pub libretro_directory: Option<Seq<char>>,
    pub core: Option<Seq<char>>,
    pub filter: Option<Seq<Seq<char>>>,
    pub strict: Option<bool>,
    pub which: Option<bool>,
    pub which_command: Option<bool>,
    pub list_cores: Option<bool>,
    pub fullscreen: Option<bool>,
    pub resolve: Option<bool>,
    pub highlander: Option<bool>,
    pub open_config: Option<bool>,
    pub config_path: Option<bool>,
    pub noconfig: Option<bool>,
    pub norun: Option<bool>,
    pub nostdin: Option<bool>,
    pub cores_rules: Option<RulesView>,
    pub extension_rules: Option<RulesView>,
    pub directory_rules: Option<RulesView>,
}

/// One layer of configuration.  Every field but the two lists may be absent, meaning that this
/// layer does not specify it; a flag set to `false` is specified.  Paths are held as strings.
#[derive(Debug)]
pub struct Settings {
    pub games: Vec<String>,
    pub retroarch_arguments: Vec<String>,
    pub config: Option<String>,
    pub retroarch: Option<String>,
    pub retroarch_config: Option<String>,
    pub libretro: Option<String>,
    pub libretro_directory: Option<String>,
    pub core: Option<String>,
    pub filter: Option<Vec<String>>,
    pub strict: Option<bool>,
    pub which: Option<bool>,
    pub which_command: Option<bool>,
    pub list_cores: Option<bool>,
    pub fullscreen: Option<bool>,
    pub resolve: Option<bool>,
    pub highlander: Option<bool>,
    pub open_config: Option<bool>,
    pub config_path: Option<bool>,
    pub noconfig: Option<bool>,
    pub norun: Option<bool>,
    pub nostdin: Option<bool>,
    pub cores_rules: Option<IndexMap<String, String>>,
    pub extension_rules: Option<IndexMap<String, String>>,
    pub directory_rules: Option<IndexMap<String, String>>,
}

impl View for Settings {
    type V = SettingsView;

    open spec fn view(&self) -> SettingsView {
        SettingsView {
            games: self.games.deep_view(),
            retroarch_arguments: self.retroarch_arguments.deep_view(),
            config: self.config.deep_view(),
            retroarch: self.retroarch.deep_view(),
            retroarch_config: self.retroarch_config.deep_view(),
            libretro: self.libretro.deep_view(),
            libretro_directory: self.libretro_directory.deep_view(),
            core: self.core.deep_view(),
            filter: self.filter.deep_view(),
            strict: self.strict,
            which: self.which,
            which_command: self.which_command,
            list_cores: self.list_cores,
            fullscreen: self.fullscreen,
            resolve: self.resolve,
            highlander: self.highlander,
            open_config: self.open_config,
            config_path: self.config_path,
            noconfig: self.noconfig,
            norun: self.norun,
            nostdin: self.nostdin,
            cores_rules: rules_view(self.cores_rules),
            extension_rules: rules_view(self.extension_rules),
            directory_rules: rules_view(self.directory_rules),
        }
    }
}

/// The layer that specifies nothing.
pub open spec fn empty_layer() -> SettingsView {
    SettingsView {
        games: Seq::empty(),
        retroarch_arguments: Seq::empty(),
        config: None,
        retroarch: None,
        retroarch_config: None,
        libretro: None,
        libretro_directory: None,
        core: None,
        filter: None,
        strict: None,
        which: None,
        which_command: None,
        list_cores: None,
        fullscreen: None,
        resolve: None,
        highlander: None,
        open_config: None,
        config_path: None,
        noconfig: None,
        norun: None,
        nostdin: None,
        cores_rules: None,
        extension_rules: None,
        directory_rules: None,
    }
}

/// `b` where it is present, else `a`.
pub open spec fn pick<T>(a: Option<T>, b: Option<T>) -> Option<T> {
    if b is Some {
        b
    } else {
        a
    }
}

/// `t` with every field that `s` specifies replaced by `s`'s value; the two lists get `s`'s
/// entries in front of their own.
pub open spec fn override_merge(t: SettingsView, s: SettingsView) -> SettingsView {
    SettingsView {
        games: s.games + t.games,
        retroarch_arguments: s.retroarch_arguments + t.retroarch_arguments,
        config: pick(t.config, s.config),
        retroarch: pick(t.retroarch, s.retroarch),
        retroarch_config: pick(t.retroarch_config, s.retroarch_config),
        libretro: pick(t.libretro, s.libretro),
        libretro_directory: pick(t.libretro_directory, s.libretro_directory),
        core: pick(t.core, s.core),
        filter: pick(t.filter, s.filter),
        strict: pick(t.strict, s.strict),
        which: pick(t.which, s.which),
        which_command: pick(t.which_command, s.which_command),
        list_cores: pick(t.list_cores, s.list_cores),
        fullscreen: pick(t.fullscreen, s.fullscreen),
        resolve: pick(t.resolve, s.resolve),
        highlander: pick(t.highlander, s.highlander),
        open_config: pick(t.open_config, s.open_config),
        config_path: pick(t.config_path, s.config_path),
        noconfig: pick(t.noconfig, s.noconfig),
        norun: pick(t.norun, s.norun),
        nostdin: pick(t.nostdin, s.nostdin),
        cores_rules: pick(t.cores_rules, s.cores_rules),
        extension_rules: pick(t.extension_rules, s.extension_rules),
        directory_rules: pick(t.directory_rules, s.directory_rules),
    }
}

/// `t` with its frontend path, frontend configuration, core path and core directory taken from
/// `s` where `t` lacks them; nothing else changes.
pub open spec fn fallback_merge(t: SettingsView, s: SettingsView) -> SettingsView {
    SettingsView {
        retroarch: pick(s.retroarch, t.retroarch),
        retroarch_config: pick(s.retroarch_config, t.retroarch_config),
        libretro: pick(s.libretro, t.libretro),
        libretro_directory: pick(s.libretro_directory, t.libretro_directory),
        ..t
    }
}

/// `t` after merging each of `layers` into it in turn, first to last.
pub open spec fn merge_all(t: SettingsView, layers: Seq<SettingsView>) -> SettingsView
    decreases layers.len(),
{
    if layers.len() == 0 {
        t
    } else {
        override_merge(merge_all(t, layers.drop_last()), layers.last())
    }
}

/// The games of `layers`, those of the last layer first.
pub open spec fn games_latest_first(layers: Seq<SettingsView>) -> Seq<Seq<char>>
    decreases layers.len(),
{
    if layers.len() == 0 {
        Seq::empty()
    } else {
        layers.last().games + games_latest_first(layers.drop_last())
    }
}

/// The pass-through arguments of `layers`, those of the last layer first.
pub open spec fn arguments_latest_first(layers: Seq<SettingsView>) -> Seq<Seq<char>>
    decreases layers.len(),
{
    if layers.len() == 0 {
        Seq::empty()
    } else {
        layers.last().retroarch_arguments + arguments_latest_first(layers.drop_last())
    }
}

/// After any series of override merges, the games (and the pass-through arguments) are those of
/// the layers merged later placed before those of the layers merged earlier, and the target's
/// own come last.
pub proof fn lemma_merge_games_latest_first(t: SettingsView, layers: Seq<SettingsView>)
    ensures
        merge_all(t, layers).games == games_latest_first(layers) + t.games,
        merge_all(t, layers).retroarch_arguments == arguments_latest_first(layers) + t.retroarch_arguments,
    decreases layers.len(),
{
    if layers.len() > 0 {
        lemma_merge_games_latest_first(t, layers.drop_last());
        let l = layers.last();
        assert(l.games + (games_latest_first(layers.drop_last()) + t.games)
            =~= (l.games + games_latest_first(layers.drop_last())) + t.games);
        assert(l.retroarch_arguments + (arguments_latest_first(layers.drop_last()) + t.retroarch_arguments)
            =~= (l.retroarch_arguments + arguments_latest_first(layers.drop_last())) + t.retroarch_arguments);
    }
}

/// A flag is on only when set to `true`.
pub open spec fn is_set(b: Option<bool>) -> bool {
    b == Some(true)
}

fn flag_on(b: Option<bool>) -> (r: bool)
    ensures
        r == is_set(b),
{
    match b {
        Some(v) => v,
        None => false,
    }
}

/// A fallback merge never replaces a value that the target has, whatever the source holds, and
/// changes nothing but the frontend path, the frontend configuration, the core path and the core
/// directory.
pub proof fn lemma_fallback_keeps_target(t: SettingsView, s: SettingsView)
    ensures
        t.retroarch is Some ==> fallback_merge(t, s).retroarch == t.retroarch,
        t.retroarch_config is Some ==> fallback_merge(t, s).retroarch_config == t.retroarch_config,
        t.libretro is Some ==> fallback_merge(t, s).libretro == t.libretro,
        t.libretro_directory is Some ==> fallback_merge(t, s).libretro_directory == t.libretro_directory,
        t.retroarch is None ==> fallback_merge(t, s).retroarch == s.retroarch,
        t.retroarch_config is None ==> fallback_merge(t, s).retroarch_config == s.retroarch_config,
        t.libretro is None ==> fallback_merge(t, s).libretro == s.libretro,
        t.libretro_directory is None ==> fallback_merge(t, s).libretro_directory == s.libretro_directory,
        fallback_merge(t, s) == (SettingsView {
            retroarch: fallback_merge(t, s).retroarch,
            retroarch_config: fallback_merge(t, s).retroarch_config,
            libretro: fallback_merge(t, s).libretro,
            libretro_directory: fallback_merge(t, s).libretro_directory,
            ..t
        }),
{
}

/// The flag as a setting: given is `Some(true)`, not given is absent.
pub open spec fn flag(b: bool) -> Option<bool> {
    if b {
        Some(true)
    } else {
        None
    }
}

pub(crate) fn replace_if_some<T>(dst: &mut Option<T>, src: Option<T>)
    ensures
        *final(dst) == pick(*old(dst), src),
{
    if src.is_some() {
        *dst = src;
    }
}

fn set_flag(b: bool) -> (r: Option<bool>)
    ensures
        r == flag(b),
{
    if b {
        Some(true)
    } else {
        None
    }
}

impl Settings {
    /// Whether the strict mode of the filter is on.
    pub fn is_strict(&self) -> (r: bool)
        ensures
            r == is_set(self@.strict),
    {
        flag_on(self.strict)
    }

    /// Whether stdin is to be ignored.
    pub fn is_nostdin(&self) -> (r: bool)
        ensures
            r == is_set(self@.nostdin),
    {
        flag_on(self.nostdin)
    }

    /// Whether the frontend is only simulated, not run.
    pub fn is_norun(&self) -> (r: bool)
        ensures
            r == is_set(self@.norun),
    {
        flag_on(self.norun)
    }

    /// Whether the whole command is to be printed.
    pub fn is_which_command(&self) -> (r: bool)
        ensures
            r == is_set(self@.which_command),
    {
        flag_on(self.which_command)
    }

    /// Whether the aliases are to be listed.
    pub fn is_list_cores(&self) -> (r: bool)
        ensures
            r == is_set(self@.list_cores),
    {
        flag_on(self.list_cores)
    }

    /// Whether any game is available.
    pub fn is_game_available(&self) -> (r: bool)
        ensures
            r == (self@.games.len() > 0),
    {
        self.games.len() > 0
    }

    /// The user configuration file to read: none when reading it is switched off.
    pub fn get_config(&self) -> (r: Option<String>)
        ensures
            r.deep_view() == if is_set(self@.noconfig) {
                None
            } else {
                self@.config
            },
    {
        if flag_on(self.noconfig) {
            None
        } else {
            match &self.config {
                Some(c) => Some(c.clone()),
                None => None,
            }
        }
    }

    /// The frontend's own configuration file, if one is set.
    pub fn get_retroarch_config(&self) -> (r: Option<String>)
        ensures
            r.deep_view() == self@.retroarch_config,
    {
        match &self.retroarch_config {
            Some(c) => Some(c.clone()),
            None => None,
        }
    }

    /// Whether a core is known without the frontend's configuration: both a core path and a
    /// core directory are set.
    pub fn is_libretro_path_available(&self) -> (r: bool)
        ensures
            r == (self@.libretro is Some && self@.libretro_directory is Some),
    {
        self.libretro.is_some() && self.libretro_directory.is_some()
    }

    /// A layer that specifies nothing.
    pub fn new() -> (r: Settings)
        ensures
            r@ == empty_layer(),
    {
        let r = Settings {
            games: Vec::new(),
            retroarch_arguments: Vec::new(),
            config: None,
            retroarch: None,
            retroarch_config: None,
            libretro: None,
            libretro_directory: None,
            core: None,
            filter: None,
            strict: None,
            which: None,
            which_command: None,
            list_cores: None,
            fullscreen: None,
            resolve: None,
            highlander: None,
            open_config: None,
            config_path: None,
            noconfig: None,
            norun: None,
            nostdin: None,
            cores_rules: None,
            extension_rules: None,
            directory_rules: None,
        };
        assert(r@.games =~= Seq::<Seq<char>>::empty());
        assert(r@.retroarch_arguments =~= Seq::<Seq<char>>::empty());
        r
    }

    /// A layer with the built-in defaults: the frontend is the command `retroarch`.
    pub fn new_from_defaults() -> (r: Settings)
        ensures
            r@ == (SettingsView { retroarch: Some("retroarch"@), ..empty_layer() }),
    {
        let mut r = Settings::new();
        r.retroarch = Some("retroarch".to_owned());
        r
    }

    /// A layer with the lines read from stdin as games, or with none when stdin is to be ignored.
    pub fn new_from_stdin(nostdin: bool, lines: Vec<String>) -> (r: Settings)
        ensures
            r@ == (SettingsView {
                games: if nostdin { Seq::empty() } else { lines.deep_view() },
                ..empty_layer()
            }),
    {
        let mut r = Settings::new();
        if !nostdin {
            r.games = lines;
        }
        r
    }

    /// A layer from command line options: lists and optional values as they are, the
    /// configuration path always, and each flag as `Some(true)` when given and absent otherwise.
    pub fn new_from_cmdline(args: Opt) -> (r: Settings)
        ensures
            r@ == (SettingsView {
                games: args.games.deep_view(),
                retroarch_arguments: args.retroarch_arguments.deep_view(),
                config: Some(args.config@),
                retroarch: args.retroarch.deep_view(),
                retroarch_config: args.retroarch_config.deep_view(),
                libretro: args.libretro.deep_view(),
                libretro_directory: args.libretro_directory.deep_view(),
                core: args.core.deep_view(),
                filter: args.filter.deep_view(),
                strict: flag(args.strict),
                which: flag(args.which),
                which_command: flag(args.which_command),
                list_cores: flag(args.list_cores),
                fullscreen: flag(args.fullscreen),
                resolve: flag(args.resolve),
                highlander: flag(args.highlander),
                open_config: flag(args.open_config),
                config_path: flag(args.config_path),
                noconfig: flag(args.noconfig),
                norun: flag(args.norun),
                nostdin: flag(args.nostdin),
                ..empty_layer()
            }),
    {
        Settings {
            games: args.games,
            retroarch_arguments: args.retroarch_arguments,
            config: Some(args.config),
            retroarch: args.retroarch,
            retroarch_config: args.retroarch_config,
            libretro: args.libretro,
            libretro_directory: args.libretro_directory,
            core: args.core,
            filter: args.filter,
            strict: set_flag(args.strict),
            which: set_flag(args.which),
            which_command: set_flag(args.which_command),
            list_cores: set_flag(args.list_cores),
            fullscreen: set_flag(args.fullscreen),
            resolve: set_flag(args.resolve),
            highlander: set_flag(args.highlander),
            open_config: set_flag(args.open_config),
            config_path: set_flag(args.config_path),
            noconfig: set_flag(args.noconfig),
            norun: set_flag(args.norun),
            nostdin: set_flag(args.nostdin),
            cores_rules: None,
            extension_rules: None,
            directory_rules: None,
        }
    }

    /// Merges `overwrite` into this layer: every field that `overwrite` specifies replaces this
    /// layer's value (rule tables as a whole), and its games and pass-through arguments are put
    /// in front of this layer's.
    pub fn update_from(&mut self, overwrite: Settings)
        ensures
            final(self)@ == override_merge(old(self)@, overwrite@),
    {
        let Settings {
            mut games,
            mut retroarch_arguments,
            config,
            retroarch,
            retroarch_config,
            libretro,
            libretro_directory,
            core,
            filter,
            strict,
            which,
            which_command,
            list_cores,
            fullscreen,
            resolve,
            highlander,
            open_config,
            config_path,
            noconfig,
            norun,
            nostdin,
            cores_rules,
            extension_rules,
            directory_rules,
        } = overwrite;
        games.append(&mut self.games);
        self.games = games;
        retroarch_arguments.append(&mut self.retroarch_arguments);
        self.retroarch_arguments = retroarch_arguments;
        replace_if_some(&mut self.config, config);
        replace_if_some(&mut self.retroarch, retroarch);
        replace_if_some(&mut self.retroarch_config, retroarch_config);
        replace_if_some(&mut self.libretro, libretro);
        replace_if_some(&mut self.libretro_directory, libretro_directory);
        replace_if_some(&mut self.core, core);
        replace_if_some(&mut self.filter, filter);
        replace_if_some(&mut self.strict, strict);
        replace_if_some(&mut self.which, which);
        replace_if_some(&mut self.which_command, which_command);
        replace_if_some(&mut self.list_cores, list_cores);
        replace_if_some(&mut self.fullscreen, fullscreen);
        replace_if_some(&mut self.resolve, resolve);
        replace_if_some(&mut self.highlander, highlander);
        replace_if_some(&mut self.open_config, open_config);
        replace_if_some(&mut self.config_path, config_path);
        replace_if_some(&mut self.noconfig, noconfig);
        replace_if_some(&mut self.norun, norun);
        replace_if_some(&mut self.nostdin, nostdin);
        replace_if_some(&mut self.cores_rules, cores_rules);
        replace_if_some(&mut self.extension_rules, extension_rules);
        replace_if_some(&mut self.directory_rules, directory_rules);
        assert(self@.games =~= override_merge(old(self)@, overwrite@).games);
        assert(self@.retroarch_arguments =~= override_merge(old(self)@, overwrite@).retroarch_arguments);
    }

    /// Fills the frontend path, the frontend configuration, the core path and the core directory
    /// from `overwrite` where this layer lacks them.  A value this layer has is never replaced,
    /// and no other field changes.
    pub fn update_defaults_from(&mut self, overwrite: Settings)
        ensures
            final(self)@ == fallback_merge(old(self)@, overwrite@),
            old(self).retroarch is Some ==> final(self).retroarch == old(self).retroarch,
            old(self).retroarch_config is Some ==> final(self).retroarch_config == old(self).retroarch_config,
            old(self).libretro is Some ==> final(self).libretro == old(self).libretro,
            old(self).libretro_directory is Some ==> final(self).libretro_directory == old(self).libretro_directory,
    {
        if self.retroarch.is_none() {
            self.retroarch = overwrite.retroarch;
        }
        if self.retroarch_config.is_none() {
            self.retroarch_config = overwrite.retroarch_config;
        }
        if self.libretro.is_none() {
            self.libretro = overwrite.libretro;
        }
        if self.libretro_directory.is_none() {
            self.libretro_directory = overwrite.libretro_directory;
        }
    }
}

} // verus!
