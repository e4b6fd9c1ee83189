//! Reading a settings layer from the user configuration document: the `[options]` section,
//! the aliases of `[cores]`, and the extension (`[.smc .sfc]`) and directory (`[~/roms/psx*]`)
//! rule sections.

use vstd::prelude::*;

use indexmap::IndexMap;

use crate::document::coerce_bool;
use crate::document::doc_get;
use crate::document::ini_document_of;
use crate::document::section_entries;
use crate::document::section_names;
use crate::document::ConfigDocument;
use crate::document::ConfigError;
use crate::document::DocumentView;
use crate::file::has_home_prefix;
use crate::file::tilde;
use crate::rules::insert_entry;
use crate::rules::lookup;
use crate::rules::rule_entries;
use crate::rules::rule_map_entries;
use crate::rules::rule_map_get;
use crate::rules::rule_map_insert;
use crate::rules::rule_map_new;
use crate::rules::rules_view;
use crate::settings::empty_layer;
use crate::settings::pick;
use crate::settings::replace_if_some;
use crate::settings::RulesView;
use crate::settings::Settings;
use crate::settings::SettingsView;
use crate::text::contains_char;
use crate::text::drop_first_char;
use crate::text::seq_ends_with;
use crate::text::shell_words_of;
use crate::text::split_shell_words;
use crate::text::split_words;
use crate::text::starts_with_char;
use crate::text::str_eq;
use crate::text::words_of;

verus! {

/// The value of `key` in `[options]`.
pub open spec fn option_value(d: DocumentView, key: Seq<char>) -> Option<Seq<char>> {
    doc_get(d, "options"@, key)
}

/// The flag `key` of `[options]` as a setting; absent where it is missing or unreadable.
pub open spec fn option_flag(d: DocumentView, key: Seq<char>) -> Option<bool> {
    match coerce_bool(option_value(d, key)) {
        Ok(b) => b,
        Err(_) => None,
    }
}

/// True when `key` of `[options]` is missing or a boolean word.
pub open spec fn flag_readable(d: DocumentView, key: Seq<char>) -> bool {
    coerce_bool(option_value(d, key)) is Ok
}

/// True when every flag of `[options]` is missing or a boolean word.
pub open spec fn option_flags_readable(d: DocumentView) -> bool {
    &&& flag_readable(d, "strict"@)
    &&& flag_readable(d, "which"@)
    &&& flag_readable(d, "which_command"@)
    &&& flag_readable(d, "list_cores"@)
    &&& flag_readable(d, "fullscreen"@)
    &&& flag_readable(d, "resolve"@)
    &&& flag_readable(d, "highlander"@)
    &&& flag_readable(d, "norun"@)
    &&& flag_readable(d, "nostdin"@)
}

/// Layer `v` with the keys of `[options]` applied: `game` adds one game, `retroarch_arguments`
/// is split by shell rules (nothing where the quoting is broken), `filter` is one pattern, paths
/// and flags replace what they name.
pub open spec fn options_applied(v: SettingsView, d: DocumentView) -> SettingsView {
    SettingsView {
        games: match option_value(d, "game"@) {
            Some(g) => v.games.push(g),
            None => v.games,
        },
        retroarch_arguments: match option_value(d, "retroarch_arguments"@) {
            Some(a) => match shell_words_of(a) {
                Some(w) => w,
                None => Seq::empty(),
            },
            None => v.retroarch_arguments,
        },
        retroarch: pick(v.retroarch, option_value(d, "retroarch"@)),
        retroarch_config: pick(v.retroarch_config, option_value(d, "retroarch_config"@)),
        libretro: pick(v.libretro, option_value(d, "libretro"@)),
        libretro_directory: pick(v.libretro_directory, option_value(d, "libretro_directory"@)),
        core: pick(v.core, option_value(d, "core"@)),
        filter: match option_value(d, "filter"@) {
            Some(f) => Some(seq![f]),
            None => v.filter,
        },
        strict: pick(v.strict, option_flag(d, "strict"@)),
        which: pick(v.which, option_flag(d, "which"@)),
        which_command: pick(v.which_command, option_flag(d, "which_command"@)),
        list_cores: pick(v.list_cores, option_flag(d, "list_cores"@)),
        fullscreen: pick(v.fullscreen, option_flag(d, "fullscreen"@)),
        resolve: pick(v.resolve, option_flag(d, "resolve"@)),
        highlander: pick(v.highlander, option_flag(d, "highlander"@)),
        norun: pick(v.norun, option_flag(d, "norun"@)),
        nostdin: pick(v.nostdin, option_flag(d, "nostdin"@)),
        ..v
    }
}

/// Entries `acc` with `v` inserted under each of `keys` in turn.
pub open spec fn insert_all(acc: RulesView, keys: Seq<Seq<char>>, v: Seq<char>) -> RulesView
    decreases keys.len(),
{
    if keys.len() == 0 {
        acc
    } else {
        insert_entry(insert_all(acc, keys.drop_last(), v), keys.last(), v)
    }
}

/// The aliases defined by the entries of `[cores]`: each key with a non-empty value names one
/// alias per word.
pub open spec fn aliases_of(es: Seq<(Seq<char>, Option<Seq<char>>)>) -> RulesView
    decreases es.len(),
{
    if es.len() == 0 {
        Seq::empty()
    } else {
        let acc = aliases_of(es.drop_last());
        let e = es.last();
        match e.1 {
            Some(t) => if t.len() > 0 {
                insert_all(acc, words_of(e.0), t)
            } else {
                acc
            },
            None => acc,
        }
    }
}

/// The alias table of a document.
pub open spec fn cores_rules_of(d: DocumentView) -> RulesView {
    aliases_of(section_entries(d, "cores"@))
}

/// The core that a rule section names: its `libretro` path, else the path of the alias that its
/// `core` key names.
pub open spec fn rule_target(d: DocumentView, cores: Option<RulesView>, section: Seq<char>) -> Option<Seq<char>> {
    match doc_get(d, section, "libretro"@) {
        Some(p) => Some(p),
        None => match doc_get(d, section, "core"@) {
            Some(c) => match cores {
                Some(t) => lookup(t, c),
                None => None,
            },
            None => None,
        },
    }
}

/// A word without its leading dot.
pub open spec fn strip_dot(w: Seq<char>) -> Seq<char> {
    if w.len() > 0 {
        w.drop_first()
    } else {
        w
    }
}

/// The extensions that an extension section's name lists.
pub open spec fn extensions_of(name: Seq<char>) -> Seq<Seq<char>> {
    words_of(name).map_values(|w: Seq<char>| strip_dot(w))
}

/// The extension rules defined by the sections `names` of a document.
pub open spec fn extension_rules_of(d: DocumentView, cores: Option<RulesView>, names: Seq<Seq<char>>) -> RulesView
    decreases names.len(),
{
    if names.len() == 0 {
        Seq::empty()
    } else {
        let acc = extension_rules_of(d, cores, names.drop_last());
        let n = names.last();
        if n.len() > 0 && n[0] == '.' {
            match rule_target(d, cores, n) {
                Some(p) => insert_all(acc, extensions_of(n), p),
                None => acc,
            }
        } else {
            acc
        }
    }
}

/// The directory rules defined by directory sections, each given as its name and the pattern it
/// stands for.
pub open spec fn directory_rules_of(d: DocumentView, cores: Option<RulesView>, pairs: Seq<(Seq<char>, Seq<char>)>) -> RulesView
    decreases pairs.len(),
{
    if pairs.len() == 0 {
        Seq::empty()
    } else {
        let acc = directory_rules_of(d, cores, pairs.drop_last());
        let e = pairs.last();
        match rule_target(d, cores, e.0) {
            Some(p) => insert_entry(acc, e.1, p),
            None => acc,
        }
    }
}

/// The names among `names` that hold a `/`.
pub open spec fn directory_names(names: Seq<Seq<char>>) -> Seq<Seq<char>>
    decreases names.len(),
{
    if names.len() == 0 {
        Seq::empty()
    } else if names.last().contains('/') {
        directory_names(names.drop_last()).push(names.last())
    } else {
        directory_names(names.drop_last())
    }
}

/// What `~` expansion may make of `name`: the name itself, or, for `~` or `~/...`, some
/// directory followed by the rest of the name.
pub open spec fn home_expansion(name: Seq<char>, e: Seq<char>) -> bool {
    &&& !has_home_prefix(name) ==> e == name
    &&& has_home_prefix(name) ==> seq_ends_with(e, name.drop_first())
}

/// `pairs` gives each directory section among `names`, in order, with an expansion of its name.
pub open spec fn expanded_directories(names: Seq<Seq<char>>, pairs: Seq<(Seq<char>, Seq<char>)>) -> bool {
    &&& pairs.len() == directory_names(names).len()
    &&& forall|j: int| 0 <= j < pairs.len() ==> #[trigger] pairs[j].0 == directory_names(names)[j]
        && home_expansion(pairs[j].0, pairs[j].1)
}

/// A rule table as a setting: absent when it has no entries.
pub open spec fn nonempty_rules(es: RulesView) -> Option<RulesView> {
    if es.len() > 0 {
        Some(es)
    } else {
        None
    }
}

/// The layer read from document `d` at path `config`, before its directory rules: options
/// applied when `[options]` exists, aliases and extension rules present when they have entries.
pub open spec fn config_layer(config: Seq<char>, d: DocumentView) -> SettingsView {
    let base = SettingsView { config: Some(config), ..empty_layer() };
    let opts = if section_names(d).contains("options"@) {
        options_applied(base, d)
    } else {
        base
    };
    let cores = nonempty_rules(cores_rules_of(d));
    SettingsView {
        cores_rules: cores,
        extension_rules: nonempty_rules(extension_rules_of(d, cores, section_names(d))),
        ..opts
    }
}

fn set_if_nonempty(dst: &mut Option<IndexMap<String, String>>, rules: IndexMap<String, String>)
    requires
        *old(dst) is None,
    ensures
        rules_view(*final(dst)) == nonempty_rules(rule_entries(rules)),
{
    if rule_map_entries(&rules).len() > 0 {
        *dst = Some(rules);
    }
}

fn read_flag(ini: &ConfigDocument, key: &str) -> (r: Result<Option<bool>, ConfigError>)
    ensures
        match coerce_bool(option_value(ini@, key@)) {
            Ok(b) => r == Ok::<Option<bool>, ConfigError>(b),
            Err(_) => r is Err && r->Err_0 is NotABoolean,
        },
{
    ini.getboolcoerce("options", key)
}

fn contains_name(names: &Vec<String>, name: &str) -> (r: bool)
    ensures
        r == names.deep_view().contains(name@),
{
    let mut i: usize = 0;
    while i < names.len()
        invariant
            i <= names@.len(),
            forall|j: int| 0 <= j < i ==> names@[j]@ != name@,
        decreases names@.len() - i,
    {
        if str_eq(names[i].as_str(), name) {
            assert(names.deep_view()[i as int] == name@);
            return true;
        }
        i = i + 1;
    }
    assert(!names.deep_view().contains(name@)) by {
        assert forall|j: int| 0 <= j < names.deep_view().len() implies names.deep_view()[j] != name@ by {
            assert(names.deep_view()[j] == names@[j]@);
        }
    }
    false
}

fn insert_words(m: &mut IndexMap<String, String>, words: &Vec<String>, strip: bool, value: &String)
    ensures
        rule_entries(*final(m)) == insert_all(
            rule_entries(*old(m)),
            if strip { words.deep_view().map_values(|w: Seq<char>| strip_dot(w)) } else { words.deep_view() },
            value@,
        ),
{
    let ghost keys = if strip { words.deep_view().map_values(|w: Seq<char>| strip_dot(w)) } else { words.deep_view() };
    let ghost start = rule_entries(*m);
    let mut i: usize = 0;
    while i < words.len()
        invariant
            i <= words@.len(),
            keys.len() == words@.len(),
            keys == if strip { words.deep_view().map_values(|w: Seq<char>| strip_dot(w)) } else { words.deep_view() },
            rule_entries(*m) == insert_all(start, keys.subrange(0, i as int), value@),
        decreases words@.len() - i,
    {
        let key = if strip { drop_first_char(words[i].as_str()) } else { words[i].clone() };
        assert(words.deep_view()[i as int] == words@[i as int]@);
        assert(key@ == keys[i as int]);
        rule_map_insert(m, key, value.clone());
        assert(keys.subrange(0, i + 1).drop_last() =~= keys.subrange(0, i as int));
        i = i + 1;
    }
    assert(keys.subrange(0, i as int) =~= keys);
}

fn target_of(cores_rules: Option<&IndexMap<String, String>>, ini: &ConfigDocument, section: &str) -> (r: Option<String>)
    ensures
        r.deep_view() == rule_target(
            ini@,
            match cores_rules {
                Some(t) => Some(rule_entries(*t)),
                None => None,
            },
            section@,
        ),
{
    match ini.get(section, "libretro") {
        Some(path) => Some(path),
        None => match ini.get(section, "core") {
            Some(alias) => match cores_rules {
                Some(rules) => rule_map_get(rules, &alias),
                None => None,
            },
            None => None,
        },
    }
}

impl Settings {
    /// Reads a layer from the text of the user configuration file found at `config`: the
    /// options, then the aliases, then the extension and directory rules, which may name those
    /// aliases.  Rule tables without entries stay absent.  Fails where the text is no INI
    /// document or a flag of `[options]` is no boolean word.
    pub fn new_from_config(config: String, text: &str) -> (r: Result<Settings, ConfigError>)
        ensures
            r is Ok <==> ini_document_of(text@) is Some && (section_names(ini_document_of(text@)->0).contains("options"@)
                ==> option_flags_readable(ini_document_of(text@)->0)),
            ini_document_of(text@) is None ==> r is Err && r->Err_0 is Syntax,
            ini_document_of(text@) is Some && r is Err ==> r->Err_0 is NotABoolean,
            r matches Ok(s) ==> {
                let d = ini_document_of(text@)->0;
                let layer = config_layer(config@, d);
                &&& s@ == (SettingsView { directory_rules: s@.directory_rules, ..layer })
                &&& exists|pairs: Seq<(Seq<char>, Seq<char>)>| {
                    &&& #[trigger] expanded_directories(section_names(d), pairs)
                    &&& s@.directory_rules == nonempty_rules(directory_rules_of(d, layer.cores_rules, pairs))
                }
            },
    {
        let mut settings = Settings::new();
        settings.config = Some(config);
        let ini = match ConfigDocument::parse(text) {
            Ok(d) => d,
            Err(e) => return Err(e),
        };
        let ghost d = ini@;
        let names = ini.sections();
        match Settings::read_config_options(&mut settings, &ini, &names) {
            Ok(()) => {},
            Err(e) => return Err(e),
        }
        let ghost opts = settings@;
        let cores_rules = Settings::read_config_cores_rules(&ini);
        set_if_nonempty(&mut settings.cores_rules, cores_rules);
        let extension_rules = Settings::read_config_extension_rules(settings.cores_rules.as_ref(), &ini, &names);
        set_if_nonempty(&mut settings.extension_rules, extension_rules);
        let directory_rules = Settings::read_config_directory_rules(settings.cores_rules.as_ref(), &ini, &names);
        let ghost cores = rules_view(settings.cores_rules);
        assert(exists|pairs: Seq<(Seq<char>, Seq<char>)>| {
            &&& #[trigger] expanded_directories(section_names(d), pairs)
            &&& rule_entries(directory_rules) == directory_rules_of(d, cores, pairs)
        });
        set_if_nonempty(&mut settings.directory_rules, directory_rules);
        proof {
            let layer = config_layer(settings.config.deep_view()->0, d);
            assert(settings@ == (SettingsView { directory_rules: settings@.directory_rules, ..layer }));
        }
        Ok(settings)
    }

    /// Applies the keys of `[options]` to `settings`, when `section_names` holds `options`.
    /// Fails, naming the key, where a flag's value is no boolean word.
    pub fn read_config_options(settings: &mut Settings, ini: &ConfigDocument, section_names: &Vec<String>) -> (r: Result<(), ConfigError>)
        ensures
            !section_names.deep_view().contains("options"@) ==> r is Ok && final(settings)@ == old(settings)@,
            section_names.deep_view().contains("options"@) ==> (r is Ok <==> option_flags_readable(ini@)),
            section_names.deep_view().contains("options"@) && r is Ok ==> final(settings)@ == options_applied(old(settings)@, ini@),
            r is Err ==> r->Err_0 is NotABoolean,
    {
        if !contains_name(section_names, "options") {
            return Ok(());
        }
        let strict = match read_flag(ini, "strict") { Ok(b) => b, Err(e) => return Err(e) };
        let which = match read_flag(ini, "which") { Ok(b) => b, Err(e) => return Err(e) };
        let which_command = match read_flag(ini, "which_command") { Ok(b) => b, Err(e) => return Err(e) };
        let list_cores = match read_flag(ini, "list_cores") { Ok(b) => b, Err(e) => return Err(e) };
        let fullscreen = match read_flag(ini, "fullscreen") { Ok(b) => b, Err(e) => return Err(e) };
        let resolve = match read_flag(ini, "resolve") { Ok(b) => b, Err(e) => return Err(e) };
        let highlander = match read_flag(ini, "highlander") { Ok(b) => b, Err(e) => return Err(e) };
        let norun = match read_flag(ini, "norun") { Ok(b) => b, Err(e) => return Err(e) };
        let nostdin = match read_flag(ini, "nostdin") { Ok(b) => b, Err(e) => return Err(e) };

        if let Some(value) = ini.get("options", "game") {
            settings.games.push(value);
        }
        if let Some(value) = ini.get("options", "retroarch_arguments") {
            settings.retroarch_arguments = match split_shell_words(&value) {
                Some(words) => words,
                None => Vec::new(),
            };
        }
        replace_if_some(&mut settings.retroarch, ini.get("options", "retroarch"));
        replace_if_some(&mut settings.retroarch_config, ini.get("options", "retroarch_config"));
        replace_if_some(&mut settings.libretro, ini.get("options", "libretro"));
        replace_if_some(&mut settings.libretro_directory, ini.get("options", "libretro_directory"));
        replace_if_some(&mut settings.core, ini.get("options", "core"));
        if let Some(value) = ini.get("options", "filter") {
            settings.filter = Some(vec![value]);
        }
        replace_if_some(&mut settings.strict, strict);
        replace_if_some(&mut settings.which, which);
        replace_if_some(&mut settings.which_command, which_command);
        replace_if_some(&mut settings.list_cores, list_cores);
        replace_if_some(&mut settings.fullscreen, fullscreen);
        replace_if_some(&mut settings.resolve, resolve);
        replace_if_some(&mut settings.highlander, highlander);
        replace_if_some(&mut settings.norun, norun);
        replace_if_some(&mut settings.nostdin, nostdin);
        proof {
            let want = options_applied(old(settings)@, ini@);
            assert(settings@.games =~= want.games);
            assert(settings@.retroarch_arguments =~= want.retroarch_arguments);
            assert(settings@.filter =~= want.filter);
        }
        Ok(())
    }

    /// The aliases of section `[cores]`: each key with a non-empty value defines one alias per
    /// whitespace-separated word of the key (`gb gbc = sameboy` defines `gb` and `gbc`).
    pub fn read_config_cores_rules(ini: &ConfigDocument) -> (r: IndexMap<String, String>)
        ensures
            rule_entries(r) == cores_rules_of(ini@),
    {
        let mut rules = rule_map_new();
        {
            let entries = ini.section_entries("cores");
            let ghost es = section_entries(ini@, "cores"@);
            assert(es == entries.deep_view());
            let mut i: usize = 0;
            while i < entries.len()
                invariant
                    es == entries.deep_view(),
                    i <= entries@.len(),
                    rule_entries(rules) == aliases_of(es.subrange(0, i as int)),
                decreases entries@.len() - i,
            {
                let ghost e = es[i as int];
                assert(e == entries@[i as int].deep_view());
                assert(es.subrange(0, i + 1).drop_last() =~= es.subrange(0, i as int));
                if let Some(value) = &entries[i].1 {
                    if value.as_str().unicode_len() > 0 {
                        let aliases = split_words(entries[i].0.as_str());
                        insert_words(&mut rules, &aliases, false, value);
                    }
                }
                i = i + 1;
            }
            assert(es.subrange(0, i as int) =~= es);
        }
        rules
    }

    /// The extension rules: every section whose name starts with `.` lists extensions separated
    /// by whitespace, each with its leading dot removed, and maps them to its `libretro` path or,
    /// without one, to the path of the alias that its `core` key names.
    pub fn read_config_extension_rules(
        cores_rules: Option<&IndexMap<String, String>>,
        ini: &ConfigDocument,
        section_names: &Vec<String>,
    ) -> (r: IndexMap<String, String>)
        ensures
            rule_entries(r) == extension_rules_of(
                ini@,
                match cores_rules {
                    Some(t) => Some(rule_entries(*t)),
                    None => None,
                },
                section_names.deep_view(),
            ),
    {
        let ghost cores = match cores_rules {
            Some(t) => Some(rule_entries(*t)),
            None => None,
        };
        let ghost names = section_names.deep_view();
        let mut rules = rule_map_new();
        let mut i: usize = 0;
        while i < section_names.len()
            invariant
                names == section_names.deep_view(),
                cores == match cores_rules {
                    Some(t) => Some(rule_entries(*t)),
                    None => None,
                },
                i <= section_names@.len(),
                rule_entries(rules) == extension_rules_of(ini@, cores, names.subrange(0, i as int)),
            decreases section_names@.len() - i,
        {
            let name = section_names[i].as_str();
            assert(names[i as int] == name@);
            assert(names.subrange(0, i + 1).drop_last() =~= names.subrange(0, i as int));
            if starts_with_char(name, '.') {
                if let Some(path) = target_of(cores_rules, ini, name) {
                    let patterns = split_words(name);
                    insert_words(&mut rules, &patterns, true, &path);
                }
            }
            i = i + 1;
        }
        assert(names.subrange(0, i as int) =~= names);
        rules
    }

    /// The directory rules of the given expanded section names: each pair is a section's name
    /// and the pattern it stands for; the section's `libretro` path, or the path of the alias
    /// that its `core` key names, is stored under the pattern.
    pub fn directory_rules_from(
        cores_rules: Option<&IndexMap<String, String>>,
        ini: &ConfigDocument,
        dir_pattern: &Vec<(String, String)>,
    ) -> (r: IndexMap<String, String>)
        ensures
            rule_entries(r) == directory_rules_of(
                ini@,
                match cores_rules {
                    Some(t) => Some(rule_entries(*t)),
                    None => None,
                },
                dir_pattern.deep_view(),
            ),
    {
        let ghost cores = match cores_rules {
            Some(t) => Some(rule_entries(*t)),
            None => None,
        };
        let ghost pairs = dir_pattern.deep_view();
        let mut rules = rule_map_new();
        let mut i: usize = 0;
        while i < dir_pattern.len()
            invariant
                pairs == dir_pattern.deep_view(),
                cores == match cores_rules {
                    Some(t) => Some(rule_entries(*t)),
                    None => None,
                },
                i <= dir_pattern@.len(),
                rule_entries(rules) == directory_rules_of(ini@, cores, pairs.subrange(0, i as int)),
            decreases dir_pattern@.len() - i,
        {
            let (section, expanded) = &dir_pattern[i];
            assert(pairs[i as int] == (section@, expanded@));
            assert(pairs.subrange(0, i + 1).drop_last() =~= pairs.subrange(0, i as int));
            if let Some(path) = target_of(cores_rules, ini, section.as_str()) {
                rule_map_insert(&mut rules, expanded.clone(), path);
            }
            i = i + 1;
        }
        assert(pairs.subrange(0, i as int) =~= pairs);
        rules
    }

    /// The directory rules: every section whose name holds a `/` is a directory pattern, with
    /// a leading `~` expanded to the home directory.
    pub fn read_config_directory_rules(
        cores_rules: Option<&IndexMap<String, String>>,
        ini: &ConfigDocument,
        section_names: &Vec<String>,
    ) -> (r: IndexMap<String, String>)
        ensures
            exists|pairs: Seq<(Seq<char>, Seq<char>)>| {
                &&& #[trigger] expanded_directories(section_names.deep_view(), pairs)
                &&& rule_entries(r) == directory_rules_of(
                    ini@,
                    match cores_rules {
                        Some(t) => Some(rule_entries(*t)),
                        None => None,
                    },
                    pairs,
                )
            },
    {
        let ghost names = section_names.deep_view();
        let mut dir_pattern: Vec<(String, String)> = Vec::new();
        let mut i: usize = 0;
        while i < section_names.len()
            invariant
                names == section_names.deep_view(),
                i <= section_names@.len(),
                dir_pattern.deep_view().len() == directory_names(names.subrange(0, i as int)).len(),
                forall|j: int| 0 <= j < dir_pattern.deep_view().len() ==> #[trigger] dir_pattern.deep_view()[j].0 == directory_names(names.subrange(0, i as int))[j]
                    && home_expansion(dir_pattern.deep_view()[j].0, dir_pattern.deep_view()[j].1),
            decreases section_names@.len() - i,
        {
            let name = &section_names[i];
            assert(names[i as int] == name@);
            assert(names.subrange(0, i + 1).drop_last() =~= names.subrange(0, i as int));
            let ghost before = dir_pattern.deep_view();
            let ghost dn = directory_names(names.subrange(0, i as int));
            if contains_char(name.as_str(), '/') {
                let expanded = tilde(name.as_str());
                dir_pattern.push((name.clone(), expanded));
                proof {
                    assert(dir_pattern.deep_view() =~= before.push((name@, expanded@)));
                    assert(directory_names(names.subrange(0, i + 1)) == dn.push(name@));
                    assert forall|j: int| 0 <= j < dir_pattern.deep_view().len() implies #[trigger] dir_pattern.deep_view()[j].0
                        == directory_names(names.subrange(0, i + 1))[j] && home_expansion(
                        dir_pattern.deep_view()[j].0,
                        dir_pattern.deep_view()[j].1,
                    ) by {
                        if j < before.len() {
                            assert(dir_pattern.deep_view()[j] == before[j]);
                        }
                    }
                }
            } else {
                assert(directory_names(names.subrange(0, i + 1)) == dn);
            }
            i = i + 1;
        }
        assert(names.subrange(0, i as int) =~= names);
        assert(expanded_directories(names, dir_pattern.deep_view()));
        let r = Settings::directory_rules_from(cores_rules, ini, &dir_pattern);
        assert(rule_entries(r) == directory_rules_of(
            ini@,
            match cores_rules {
                Some(t) => Some(rule_entries(*t)),
                None => None,
            },
            dir_pattern.deep_view(),
        ));
        r
    }
}

} // verus!
