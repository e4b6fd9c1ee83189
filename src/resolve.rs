//! Choosing the game among the candidates, and finding the core for it: an explicit core path,
//! else an alias, else a directory rule, else an extension rule.

use vstd::prelude::*;

use crate::file::extension_of;
use crate::file::file_stem_of;
use crate::file::parent_of;
use crate::file::path_extension;
use crate::file::path_file_stem;
use crate::file::path_parent;
use crate::file::trim_last_slash;
use crate::pattern::is_plain;
use crate::pattern::lemma_plain_pattern_matches_only_itself;
use crate::pattern::wild_match;
use crate::pattern::wildmatch;
use crate::rules::lookup;
use crate::rules::rule_entries;
use crate::rules::rule_map_entries;
use crate::rules::rule_map_get;
use crate::settings::is_set;
use crate::settings::RulesView;
use crate::settings::Settings;
use crate::settings::SettingsView;
use crate::text::concat;
use crate::text::lower_of;
use crate::text::to_lowercase;
use crate::text::trim_end_all;
use crate::text::trim_slash;
use crate::text::trim_suffix_all;

verus! {

/// Why no command could be built.
#[derive(Debug, PartialEq, Eq, Structural)]
pub enum BuildError {
    /// No game is left to select and nothing is simulated.
    NoGame,
    /// The selected game does not exist and nothing is simulated.
    GameNotFound,
    /// An alias is requested but no alias table was loaded.
    NoCoreRules,
    /// No rule gives a core path.
    LibretroNotSet,
    /// The core file does not exist.
    LibretroNotFound,
}

/// The text that filters are matched against: as it is in strict mode, else in lower case.
pub open spec fn match_text(v: SettingsView, t: Seq<char>) -> Seq<char> {
    if is_set(v.strict) {
        t
    } else {
        lower_of(t)
    }
}

/// A filter as a pattern: as it is in strict mode, else in lower case between two `*`.
pub open spec fn filter_pattern(v: SettingsView, p: Seq<char>) -> Seq<char> {
    if is_set(v.strict) {
        p
    } else {
        seq!['*'] + lower_of(p) + seq!['*']
    }
}

/// The file stem of a game path, or nothing.
pub open spec fn stem_text(g: Seq<char>) -> Seq<char> {
    match file_stem_of(g) {
        Some(s) => s,
        None => Seq::empty(),
    }
}

/// True when the game's stem matches every pattern of `filter`.
pub open spec fn game_passes(v: SettingsView, filter: Seq<Seq<char>>, g: Seq<char>) -> bool {
    forall|j: int| 0 <= j < filter.len() ==> wild_match(#[trigger] filter_pattern(v, filter[j]), match_text(v, stem_text(g)))
}

/// The first of `games` from index `i` on that passes the filter.
pub open spec fn first_passing(v: SettingsView, filter: Seq<Seq<char>>, games: Seq<Seq<char>>, i: int) -> Option<Seq<char>>
    decreases games.len() - i,
{
    if i < 0 || i >= games.len() {
        None
    } else if game_passes(v, filter, games[i]) {
        Some(games[i])
    } else {
        first_passing(v, filter, games, i + 1)
    }
}

/// The game to run: the first game without a filter, else the first game that passes it.
pub open spec fn selected_game(v: SettingsView) -> Option<Seq<char>> {
    match v.filter {
        Some(f) => first_passing(v, f, v.games, 0),
        None => if v.games.len() > 0 {
            Some(v.games[0])
        } else {
            None
        },
    }
}

/// The core of the first directory rule from index `i` on whose pattern, without a trailing
/// slash, matches the whole directory `dir`.
pub open spec fn first_directory_match(rules: RulesView, dir: Seq<char>, i: int) -> Option<Seq<char>>
    decreases rules.len() - i,
{
    if i < 0 || i >= rules.len() {
        None
    } else if wild_match(trim_slash(rules[i].0), dir) {
        Some(rules[i].1)
    } else {
        first_directory_match(rules, dir, i + 1)
    }
}

/// The core that the directory rules give for a game, by its parent directory.
pub open spec fn core_by_directory(v: SettingsView, g: Seq<char>) -> Option<Seq<char>> {
    match v.directory_rules {
        Some(rules) => match parent_of(g) {
            Some(dir) => first_directory_match(rules, dir, 0),
            None => None,
        },
        None => None,
    }
}

/// The core that the extension rules give for a game, by its extension in lower case.
pub open spec fn core_by_extension(v: SettingsView, g: Seq<char>) -> Option<Seq<char>> {
    match v.extension_rules {
        Some(rules) => match extension_of(g) {
            Some(e) => lookup(rules, lower_of(e)),
            None => None,
        },
        None => None,
    }
}

/// The core for game `g`: the explicit core path; else the alias's path (an error when no alias
/// table exists), else a directory rule's, else an extension rule's.
pub open spec fn resolved_core(v: SettingsView, g: Seq<char>) -> Result<Seq<char>, BuildError> {
    match v.libretro {
        Some(p) => Ok(p),
        None => if v.core is Some && v.cores_rules is None {
            Err(BuildError::NoCoreRules)
        } else {
            let by_alias = match v.core {
                Some(c) => lookup(v.cores_rules->0, c),
                None => None,
            };
            let found = if by_alias is Some {
                by_alias
            } else if core_by_directory(v, g) is Some {
                core_by_directory(v, g)
            } else {
                core_by_extension(v, g)
            };
            match found {
                Some(p) => Ok(p),
                None => Err(BuildError::LibretroNotSet),
            }
        },
    }
}

/// The name by which a core file is compared: its stem without trailing `_libretro`.
pub open spec fn core_key(p: Seq<char>) -> Seq<char> {
    trim_suffix_all(stem_text(p), "_libretro"@)
}

/// The aliases among `es` whose core has the key `key`.
pub open spec fn aliases_for(es: RulesView, key: Seq<char>) -> Seq<Seq<char>>
    decreases es.len(),
{
    if es.len() == 0 {
        Seq::empty()
    } else if core_key(es.last().1) == key {
        aliases_for(es.drop_last(), key).push(es.last().0)
    } else {
        aliases_for(es.drop_last(), key)
    }
}

/// In strict mode a filter without wildcards is neither wrapped nor lowered: a game passes it
/// exactly when its file stem is the filter, character for character.
pub proof fn lemma_strict_plain_filter_is_exact(v: SettingsView, f: Seq<char>, g: Seq<char>)
    requires
        is_set(v.strict),
        is_plain(f),
    ensures
        game_passes(v, seq![f], g) <==> stem_text(g) == f,
{
    lemma_plain_pattern_matches_only_itself(f, stem_text(g));
    if !game_passes(v, seq![f], g) {
        assert(!wild_match(filter_pattern(v, seq![f][0]), match_text(v, stem_text(g))));
    }
}

/// An explicit core path always wins: whatever the alias, its table and the rules hold, the
/// core is that path.
pub proof fn lemma_explicit_core_wins(v: SettingsView, w: SettingsView, g: Seq<char>)
    requires
        v.libretro is Some,
        w == (SettingsView { core: w.core, cores_rules: w.cores_rules, directory_rules: w.directory_rules, extension_rules: w.extension_rules, ..v }),
    ensures
        resolved_core(v, g) == Ok::<Seq<char>, BuildError>(v.libretro->0),
        resolved_core(w, g) == resolved_core(v, g),
{
}

/// The case of a game's extension does not matter: the extension rules are consulted with the
/// extension in lower case, so two games whose extensions agree in lower case get the same core.
pub proof fn lemma_extension_case_ignored(v: SettingsView, g1: Seq<char>, g2: Seq<char>)
    requires
        extension_of(g1) is Some,
        extension_of(g2) is Some,
        lower_of(extension_of(g1)->0) == lower_of(extension_of(g2)->0),
    ensures
        core_by_extension(v, g1) == core_by_extension(v, g2),
        v.extension_rules is Some ==> core_by_extension(v, g1) == lookup(v.extension_rules->0, lower_of(extension_of(g1)->0)),
{
}

fn stem_or_empty(g: &str) -> (r: String)
    ensures
        r@ == stem_text(g@),
{
    match path_file_stem(g) {
        Some(s) => s,
        None => String::new(),
    }
}

fn all_match(patterns: &Vec<String>, text: &str) -> (r: bool)
    ensures
        r == forall|j: int| 0 <= j < patterns@.len() ==> wild_match(#[trigger] patterns@[j]@, text@),
{
    let mut j: usize = 0;
    while j < patterns.len()
        invariant
            j <= patterns@.len(),
            forall|k: int| 0 <= k < j ==> wild_match(#[trigger] patterns@[k]@, text@),
        decreases patterns@.len() - j,
    {
        if !wildmatch(patterns[j].as_str(), text) {
            return false;
        }
        j = j + 1;
    }
    true
}

impl Settings {
    /// The text in lower case, or as it is in strict mode.
    pub fn to_lowercase(&self, text: &String) -> (r: String)
        ensures
            r@ == match_text(self@, text@),
    {
        if self.is_strict() {
            text.clone()
        } else {
            to_lowercase(text.as_str())
        }
    }

    /// The pattern for a filter: as it is in strict mode, else lowered and wrapped in `*`.
    pub fn wildmatch_pattern(&self, pattern: &str) -> (r: String)
        ensures
            r@ == filter_pattern(self@, pattern@),
    {
        if self.is_strict() {
            pattern.to_owned()
        } else {
            let lowered = to_lowercase(pattern);
            let front = concat("*", lowered.as_str());
            proof {
                reveal_strlit("*");
            }
            concat(front.as_str(), "*")
        }
    }

    /// The patterns for all filters, in their order.
    pub fn pattern_list_wildmatch(&self, filter: &Vec<String>) -> (r: Vec<String>)
        ensures
            r@.len() == filter@.len(),
            forall|j: int| 0 <= j < r@.len() ==> (#[trigger] r@[j])@ == filter_pattern(self@, filter@[j]@),
    {
        let mut r: Vec<String> = Vec::new();
        let mut j: usize = 0;
        while j < filter.len()
            invariant
                j <= filter@.len(),
                r@.len() == j,
                forall|k: int| 0 <= k < j ==> (#[trigger] r@[k])@ == filter_pattern(self@, filter@[k]@),
            decreases filter@.len() - j,
        {
            r.push(self.wildmatch_pattern(filter[j].as_str()));
            j = j + 1;
        }
        r
    }

    /// The game to run: without a filter the first game; with one the first game whose file stem
    /// matches every filter pattern (case-insensitive, each pattern wrapped in `*`, unless in
    /// strict mode).
    pub fn select_game(&self) -> (r: Option<String>)
        ensures
            r.deep_view() == selected_game(self@),
    {
        match &self.filter {
            Some(filter) => {
                let patterns = self.pattern_list_wildmatch(filter);
                let ghost f = filter.deep_view();
                let ghost gs = self@.games;
                let mut i: usize = 0;
                while i < self.games.len()
                    invariant
                        f == filter.deep_view(),
                        self@.filter == Some(f),
                        gs == self@.games,
                        i <= self.games@.len(),
                        patterns@.len() == f.len(),
                        forall|j: int| 0 <= j < patterns@.len() ==> (#[trigger] patterns@[j])@ == filter_pattern(self@, f[j]),
                        first_passing(self@, f, gs, 0) == first_passing(self@, f, gs, i as int),
                    decreases self.games@.len() - i,
                {
                    let stem = stem_or_empty(self.games[i].as_str());
                    let key = self.to_lowercase(&stem);
                    assert(gs[i as int] == self.games@[i as int]@);
                    let pass = all_match(&patterns, key.as_str());
                    assert(pass == game_passes(self@, f, gs[i as int])) by {
                        if pass {
                            assert forall|j: int| 0 <= j < f.len() implies wild_match(
                                #[trigger] filter_pattern(self@, f[j]),
                                match_text(self@, stem_text(gs[i as int])),
                            ) by {
                                assert(wild_match(patterns@[j]@, key@));
                            }
                        } else {
                            let j: int = choose|j: int| 0 <= j < patterns@.len() && !wild_match(#[trigger] patterns@[j]@, key@);
                            assert(!wild_match(filter_pattern(self@, f[j]), match_text(self@, stem_text(gs[i as int]))));
                        }
                    }
                    if pass {
                        return Some(self.games[i].clone());
                    }
                    i = i + 1;
                }
                None
            },
            None => {
                if self.games.len() > 0 {
                    assert(self@.games[0] == self.games@[0]@);
                    Some(self.games[0].clone())
                } else {
                    None
                }
            },
        }
    }

    /// The core that the extension rules give for `game`, by its extension in lower case.
    pub fn libretro_from_ext(&self, game: &str) -> (r: Option<String>)
        ensures
            r.deep_view() == core_by_extension(self@, game@),
    {
        match path_extension(game) {
            Some(ext) => match &self.extension_rules {
                Some(rules) => {
                    let key = to_lowercase(ext.as_str());
                    rule_map_get(rules, key.as_str())
                },
                None => None,
            },
            None => None,
        }
    }

    /// The core of the first directory rule, in table order, whose pattern (without a trailing
    /// slash) matches the whole parent directory of `game`.
    pub fn libretro_from_dir(&self, game: &str) -> (r: Option<String>)
        ensures
            r.deep_view() == core_by_directory(self@, game@),
    {
        match path_parent(game) {
            Some(dir) => match &self.directory_rules {
                Some(rules) => {
                    let entries = rule_map_entries(rules);
                    let ghost es = rule_entries(*rules);
                    let mut i: usize = 0;
                    while i < entries.len()
                        invariant
                            es == rule_entries(*rules),
                            self@.directory_rules == Some(es),
                            parent_of(game@) == Some(dir@),
                            entries.deep_view() == es,
                            i <= entries@.len(),
                            first_directory_match(es, dir@, 0) == first_directory_match(es, dir@, i as int),
                        decreases entries@.len() - i,
                    {
                        assert(es[i as int] == entries@[i as int].deep_view());
                        let pattern = trim_last_slash(entries[i].0.clone());
                        if wildmatch(pattern.as_str(), dir.as_str()) {
                            return Some(entries[i].1.clone());
                        }
                        i = i + 1;
                    }
                    None
                },
                None => None,
            },
            None => None,
        }
    }

    /// The core for `game`, first success wins: the explicit core path; the path of the
    /// requested alias (an error when no alias table exists at all); the first matching
    /// directory rule; the extension rule.  An error when none gives one.
    pub fn resolve_libretro(&self, game: &str) -> (r: Result<String, BuildError>)
        ensures
            match (r, resolved_core(self@, game@)) {
                (Ok(p), Ok(q)) => p@ == q,
                (Err(e), Err(f)) => e == f,
                _ => false,
            },
    {
        if let Some(p) = &self.libretro {
            return Ok(p.clone());
        }
        let mut found: Option<String> = None;
        if let Some(core) = &self.core {
            match &self.cores_rules {
                Some(rules) => {
                    found = rule_map_get(rules, core.as_str());
                },
                None => {
                    return Err(BuildError::NoCoreRules);
                },
            }
        }
        if found.is_none() && self.directory_rules.is_some() {
            found = self.libretro_from_dir(game);
        }
        if found.is_none() && self.extension_rules.is_some() {
            found = self.libretro_from_ext(game);
        }
        match found {
            Some(p) => Ok(p),
            None => Err(BuildError::LibretroNotSet),
        }
    }

    /// The aliases, in table order, whose core has the same file stem as `libretro` once a
    /// trailing `_libretro` is removed from both.
    pub fn find_core_match(&self, libretro: &str) -> (r: Vec<String>)
        ensures
            r.deep_view() == match self@.cores_rules {
                Some(rules) => aliases_for(rules, core_key(libretro@)),
                None => Seq::empty(),
            },
    {
        let mut core_match: Vec<String> = Vec::new();
        if let Some(rules) = &self.cores_rules {
            let key = trim_end_all(stem_or_empty(libretro).as_str(), "_libretro");
            let entries = rule_map_entries(rules);
            let ghost es = rule_entries(*rules);
            let mut i: usize = 0;
            while i < entries.len()
                invariant
                    es == rule_entries(*rules),
                    entries.deep_view() == es,
                    key@ == core_key(libretro@),
                    i <= entries@.len(),
                    core_match.deep_view() == aliases_for(es.subrange(0, i as int), key@),
                decreases entries@.len() - i,
            {
                assert(es[i as int] == entries@[i as int].deep_view());
                assert(es.subrange(0, i + 1).drop_last() =~= es.subrange(0, i as int));
                let path_key = trim_end_all(stem_or_empty(entries[i].1.as_str()).as_str(), "_libretro");
                if crate::text::str_eq(path_key.as_str(), key.as_str()) {
                    let ghost before = core_match.deep_view();
                    core_match.push(entries[i].0.clone());
                    assert(core_match.deep_view() =~= before.push(es[i as int].0));
                }
                i = i + 1;
            }
            assert(es.subrange(0, i as int) =~= es);
        }
        core_match
    }

    /// The names of the aliases, in table order.
    pub fn core_names(&self) -> (r: Vec<String>)
        ensures
            r.deep_view() == match self@.cores_rules {
                Some(rules) => rules.map_values(|e: (Seq<char>, Seq<char>)| e.0),
                None => Seq::empty(),
            },
    {
        let mut names: Vec<String> = Vec::new();
        if let Some(rules) = &self.cores_rules {
            let entries = rule_map_entries(rules);
            let ghost es = rule_entries(*rules);
            let mut i: usize = 0;
            while i < entries.len()
                invariant
                    es == rule_entries(*rules),
                    entries.deep_view() == es,
                    i <= entries@.len(),
                    names.deep_view() == es.subrange(0, i as int).map_values(|e: (Seq<char>, Seq<char>)| e.0),
                decreases entries@.len() - i,
            {
                assert(es[i as int] == entries@[i as int].deep_view());
                let ghost before = names.deep_view();
                names.push(entries[i].0.clone());
                assert(names.deep_view() =~= before.push(es[i as int].0));
                assert(es.subrange(0, i + 1).map_values(|e: (Seq<char>, Seq<char>)| e.0) =~= es.subrange(0, i as int).map_values(
                    |e: (Seq<char>, Seq<char>)| e.0,
                ).push(es[i as int].0));
                i = i + 1;
            }
            assert(es.subrange(0, i as int) =~= es);
        }
        names
    }
}

} // verus!
