//! The frontend's own configuration: a flat key/value file whose keys sit in the implicit
//! `default` section, and the combination of a core directory with a core path.

use vstd::prelude::*;

use indexmap::IndexMap;

use crate::document::ini_document_of;
use crate::document::section_entries;
use crate::document::ConfigDocument;
use crate::document::ConfigError;
use crate::document::DocumentView;
use crate::file::core_candidate;
use crate::file::core_path_candidate;
use crate::file::has_home_prefix;
use crate::file::is_rooted;
use crate::file::plain_absolute;
use crate::file::path_exists;
use crate::file::tilde;
use crate::file::to_fullpath;
use crate::rules::insert_entry;
use crate::rules::lookup;
use crate::rules::rule_entries;
use crate::rules::rule_map_get;
use crate::rules::rule_map_insert;
use crate::rules::rule_map_new;
use crate::settings::empty_layer;
use crate::settings::RulesView;
use crate::settings::Settings;
use crate::settings::SettingsView;
use crate::text::str_eq;
use crate::text::trim_char;
use crate::text::trimmed;

verus! {

/// The file-name suffix that every core file carries.
pub const LIBRETRO_SUFFIX: &'static str = "_libretro.so";

/// The keys among `es` that `keys` lists and that have a value, with the value stripped of the
/// double quotes around it.
pub open spec fn found_keys(es: Seq<(Seq<char>, Option<Seq<char>>)>, keys: Seq<Seq<char>>) -> RulesView
    decreases es.len(),
{
    if es.len() == 0 {
        Seq::empty()
    } else {
        let acc = found_keys(es.drop_last(), keys);
        let e = es.last();
        match e.1 {
            Some(v) => if keys.contains(e.0) {
                insert_entry(acc, e.0, trimmed(v, '"'))
            } else {
                acc
            },
            None => acc,
        }
    }
}

/// The looked-up keys of the `default` section of document `d`.
pub open spec fn default_keys(d: DocumentView, keys: Seq<Seq<char>>) -> RulesView {
    found_keys(section_entries(d, "default"@), keys)
}

fn contains_key(keys: &Vec<String>, k: &str) -> (r: bool)
    ensures
        r == keys.deep_view().contains(k@),
{
    let mut i: usize = 0;
    while i < keys.len()
        invariant
            i <= keys@.len(),
            forall|j: int| 0 <= j < i ==> keys@[j]@ != k@,
        decreases keys@.len() - i,
    {
        if str_eq(keys[i].as_str(), k) {
            assert(keys.deep_view()[i as int] == k@);
            return true;
        }
        i = i + 1;
    }
    assert(!keys.deep_view().contains(k@)) by {
        assert forall|j: int| 0 <= j < keys.deep_view().len() implies keys.deep_view()[j] != k@ by {
            assert(keys.deep_view()[j] == keys@[j]@);
        }
    }
    false
}

/// The keys of the `default` section that `lookup_keys` lists, with their values stripped of
/// surrounding double quotes.  Keys without a value are left out.
pub fn extract_default_inikeys(ini: &ConfigDocument, lookup_keys: &Vec<String>) -> (r: IndexMap<String, String>)
    ensures
        rule_entries(r) == default_keys(ini@, lookup_keys.deep_view()),
{
    let mut found = rule_map_new();
    {
        let entries = ini.section_entries("default");
        let ghost es = section_entries(ini@, "default"@);
        assert(es == entries.deep_view());
        let mut i: usize = 0;
        while i < entries.len()
            invariant
                es == entries.deep_view(),
                i <= entries@.len(),
                rule_entries(found) == found_keys(es.subrange(0, i as int), lookup_keys.deep_view()),
            decreases entries@.len() - i,
        {
            assert(es[i as int] == entries@[i as int].deep_view());
            assert(es.subrange(0, i + 1).drop_last() =~= es.subrange(0, i as int));
            let (key, value) = &entries[i];
            if let Some(v) = value {
                if contains_key(lookup_keys, key.as_str()) {
                    rule_map_insert(&mut found, key.clone(), trim_char(v.as_str(), '"'));
                }
            }
            i = i + 1;
        }
        assert(es.subrange(0, i as int) =~= es);
    }
    found
}

/// Reads the text of the frontend's configuration file and returns the keys that
/// `lookup_keys` lists, with their values stripped of surrounding double quotes.
pub fn parse_retroarch_config(text: &str, lookup_keys: &Vec<String>) -> (r: Result<IndexMap<String, String>, ConfigError>)
    ensures
        match ini_document_of(text@) {
            Some(d) => r is Ok && rule_entries(r->Ok_0) == default_keys(d, lookup_keys.deep_view()),
            None => r is Err && r->Err_0 is Syntax,
        },
{
    match ConfigDocument::parse(text) {
        Ok(ini) => Ok(extract_default_inikeys(&ini, lookup_keys)),
        Err(e) => Err(e),
    }
}

/// What holds of every full core path made from `directory`, `libretro` and `suffix`: it is
/// rooted; and when neither part starts with `~` and the candidate path (see `core_candidate`)
/// is absolute, in normal form and free of variables, the result is that candidate.
pub open spec fn core_file_outcome(
    directory: Option<Seq<char>>,
    libretro: Option<Seq<char>>,
    suffix: Seq<char>,
    r: Option<Seq<char>>,
) -> bool {
    let lib = match libretro {
        Some(l) => l,
        None => Seq::<char>::empty(),
    };
    let plain_dir = match directory {
        Some(d) => !has_home_prefix(d),
        None => true,
    };
    let candidate = core_candidate(directory, lib, suffix);
    &&& r matches Some(f) ==> is_rooted(f)
    &&& plain_dir && !has_home_prefix(lib) && plain_absolute(candidate) && !candidate.contains('$') && r is Some ==> r->0 == candidate
}

/// Combines the core directory and the core path into the full path of the core file: both
/// have `~` expanded, an absolute core path ignores the directory, the file name gets `endswith`
/// unless it already ends with it, and the result is made absolute.  `None` where that fails or
/// no file exists at the result.
pub fn libretro_fullpath(directory: Option<String>, libretro: Option<String>, endswith: &str) -> (r: Option<String>)
    ensures
        core_file_outcome(directory.deep_view(), libretro.deep_view(), endswith@, r.deep_view()),
{
    let dir = match directory {
        Some(d) => Some(tilde(&d)),
        None => None,
    };
    let lib = match libretro {
        Some(l) => tilde(&l),
        None => String::new(),
    };
    let candidate = core_path_candidate(dir, lib, endswith);
    match to_fullpath(&candidate, false) {
        Some(full) => {
            if path_exists(&full) {
                Some(full)
            } else {
                None
            }
        },
        None => None,
    }
}

impl Settings {
    /// A layer from the frontend's configuration file found at `config`, with the text `text`:
    /// its path, and the core directory that its key `libretro_directory` gives.
    pub fn new_from_retroarch_config(config: String, text: &str) -> (r: Result<Settings, ConfigError>)
        ensures
            match ini_document_of(text@) {
                Some(d) => r is Ok && r->Ok_0@ == (SettingsView {
                    retroarch_config: Some(config@),
                    libretro_directory: lookup(default_keys(d, seq!["libretro_directory"@]), "libretro_directory"@),
                    ..empty_layer()
                }),
                None => r is Err && r->Err_0 is Syntax,
            },
    {
        let mut settings = Settings::new();
        settings.retroarch_config = Some(config);
        let keys = vec!["libretro_directory".to_owned()];
        assert(keys.deep_view() =~= seq!["libretro_directory"@]);
        let found = match parse_retroarch_config(text, &keys) {
            Ok(f) => f,
            Err(e) => return Err(e),
        };
        settings.libretro_directory = rule_map_get(&found, "libretro_directory");
        Ok(settings)
    }
}

} // verus!
