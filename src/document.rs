//! Configuration documents: the ordered sections of an INI text, each an ordered list of keys
//! with optional values, as configparser reads them.

use vstd::prelude::*;

use configparser::ini::Ini;

use crate::text::lower_of;

verus! {

/// What a document holds: for each section its name and its keys with their values.
pub type DocumentView = Seq<(Seq<char>, Seq<(Seq<char>, Option<Seq<char>>)>)>;

#[verifier::external_type_specification]
#[verifier::external_body]
pub struct ExIni(Ini);

/// The sections of a configparser `Ini`, in map order, each with its keys and values in map
/// order.
pub uninterp spec fn ini_contents(ini: Ini) -> DocumentView;

/// The sections and keys of an INI text, as configparser reads it case-sensitively; `None` where
/// it refuses the text.
pub uninterp spec fn ini_document_of(text: Seq<char>) -> Option<DocumentView>;

/// A parsed configuration document.  Keys that stand before the first section header belong to
/// the section `default`.
#[derive(Debug)]
pub struct ConfigDocument {
    ini: Ini,
}

impl View for ConfigDocument {
    type V = DocumentView;

    closed spec fn view(&self) -> DocumentView {
        ini_contents(self.ini)
    }
}

/// Errors found while reading a configuration document.
#[derive(Debug)]
pub enum ConfigError {
    /// The text is no valid INI document; the parser's message.
    Syntax(String),
    /// A flag whose value is no boolean word; the flag's key.
    NotABoolean(String),
}

/// Index of the first section named `name`, or `-1`.
pub open spec fn section_index(d: DocumentView, name: Seq<char>) -> int
    decreases d.len(),
{
    if d.len() == 0 {
        -1
    } else if d.last().0 == name && section_index(d.drop_last(), name) == -1 {
        d.len() - 1
    } else {
        section_index(d.drop_last(), name)
    }
}

/// Index of the first entry with key `key`, or `-1`.
pub open spec fn entry_index(es: Seq<(Seq<char>, Option<Seq<char>>)>, key: Seq<char>) -> int
    decreases es.len(),
{
    if es.len() == 0 {
        -1
    } else if es.last().0 == key && entry_index(es.drop_last(), key) == -1 {
        es.len() - 1
    } else {
        entry_index(es.drop_last(), key)
    }
}

/// The keys and values of section `name`; none where the section is missing.
pub open spec fn section_entries(d: DocumentView, name: Seq<char>) -> Seq<(Seq<char>, Option<Seq<char>>)> {
    let s = section_index(d, name);
    if s >= 0 {
        d[s].1
    } else {
        Seq::empty()
    }
}

/// The value of `key` in section `section`: `None` where the section, the key or its value is
/// missing.
pub open spec fn doc_get(d: DocumentView, section: Seq<char>, key: Seq<char>) -> Option<Seq<char>> {
    let es = section_entries(d, section);
    let e = entry_index(es, key);
    if e >= 0 {
        es[e].1
    } else {
        None
    }
}

/// The names of the sections, in their order.
pub open spec fn section_names(d: DocumentView) -> Seq<Seq<char>> {
    d.map_values(|s: (Seq<char>, Seq<(Seq<char>, Option<Seq<char>>)>)| s.0)
}

/// Words read as `true`.
pub open spec fn true_words() -> Seq<Seq<char>> {
    seq!["true"@, "yes"@, "t"@, "y"@, "on"@, "1"@]
}

/// Words read as `false`.
pub open spec fn false_words() -> Seq<Seq<char>> {
    seq!["false"@, "no"@, "f"@, "n"@, "off"@, "0"@]
}

/// A flag's value read as a boolean, by its lower-case form: `Ok(None)` where it is missing,
/// `Err(())` where it is no boolean word.
pub open spec fn coerce_bool(v: Option<Seq<char>>) -> Result<Option<bool>, ()> {
    match v {
        None => Ok(None),
        Some(s) => {
            let l = lower_of(s);
            if true_words().contains(l) {
                Ok(Some(true))
            } else if false_words().contains(l) {
                Ok(Some(false))
            } else {
                Err(())
            }
        },
    }
}

/// Relies on configparser's `Ini::new_cs` and `Ini::read` (with the `indexmap` feature, so that
/// sections and keys keep the order of the text).
#[verifier::external_body]
fn read_ini(text: &str) -> (r: Result<Ini, String>)
    ensures
        match r {
            Ok(ini) => ini_document_of(text@) == Some(ini_contents(ini)),
            Err(_) => ini_document_of(text@) is None,
        },
{
    let mut ini = Ini::new_cs();
    match ini.read(text.to_string()) {
        Ok(_) => Ok(ini),
        Err(e) => Err(e),
    }
}

/// Relies on configparser's `Ini::sections`: the keys of the section map, in order.
#[verifier::external_body]
fn ini_sections(ini: &Ini) -> (r: Vec<String>)
    ensures
        r.deep_view() == section_names(ini_contents(*ini)),
{
    ini.sections()
}

/// Relies on configparser's `Ini::get` on a case-sensitive `Ini` without cascading defaults:
/// the value stored under the key in that section, if any.
#[verifier::external_body]
fn ini_get(ini: &Ini, section: &str, key: &str) -> (r: Option<String>)
    ensures
        r.deep_view() == doc_get(ini_contents(*ini), section@, key@),
{
    ini.get(section, key)
}

/// Relies on configparser's `Ini::getboolcoerce` with its default word lists: the stored value in
/// lower case is `true`, `yes`, `t`, `y`, `on` or `1` for true and `false`, `no`, `f`, `n`, `off`
/// or `0` for false; a missing value reads as none, any other word is an error.
#[verifier::external_body]
fn ini_getboolcoerce(ini: &Ini, section: &str, key: &str) -> (r: Result<Option<bool>, String>)
    ensures
        match coerce_bool(doc_get(ini_contents(*ini), section@, key@)) {
            Ok(b) => r == Ok::<Option<bool>, String>(b),
            Err(_) => r is Err,
        },
{
    ini.getboolcoerce(section, key)
}

/// Relies on configparser's `Ini::get_map_ref`: the keys and values of one section, in order.
#[verifier::external_body]
fn ini_section_entries(ini: &Ini, name: &str) -> (r: Vec<(String, Option<String>)>)
    ensures
        r.deep_view() == section_entries(ini_contents(*ini), name@),
{
    match ini.get_map_ref().get(name) {
        Some(keys) => keys.iter().map(|(k, v)| (k.clone(), v.clone())).collect(),
        None => Vec::new(),
    }
}

impl ConfigDocument {
    /// Reads an INI text: sections, keys and values in their order.  Names of sections and keys
    /// are case-sensitive.
    pub fn parse(text: &str) -> (r: Result<ConfigDocument, ConfigError>)
        ensures
            match r {
                Ok(d) => ini_document_of(text@) == Some(d@),
                Err(e) => ini_document_of(text@) is None && e is Syntax,
            },
    {
        match read_ini(text) {
            Ok(ini) => Ok(ConfigDocument { ini }),
            Err(m) => Err(ConfigError::Syntax(m)),
        }
    }

    /// The names of the sections, in their order.
    pub fn sections(&self) -> (r: Vec<String>)
        ensures
            r.deep_view() == section_names(self@),
    {
        ini_sections(&self.ini)
    }

    /// The keys and values of section `name`, in their order; none where it is missing.
    pub fn section_entries(&self, name: &str) -> (r: Vec<(String, Option<String>)>)
        ensures
            r.deep_view() == section_entries(self@, name@),
    {
        ini_section_entries(&self.ini, name)
    }

    /// The value of `key` in section `section`.
    pub fn get(&self, section: &str, key: &str) -> (r: Option<String>)
        ensures
            r.deep_view() == doc_get(self@, section@, key@),
    {
        ini_get(&self.ini, section, key)
    }

    /// The value of `key` in section `section` read as a boolean: `true`, `yes`, `t`, `y`, `on`
    /// and `1` are true, `false`, `no`, `f`, `n`, `off` and `0` are false, in any case.  An error,
    /// naming the key, for any other value.
    pub fn getboolcoerce(&self, section: &str, key: &str) -> (r: Result<Option<bool>, ConfigError>)
        ensures
            match coerce_bool(doc_get(self@, section@, key@)) {
                Ok(b) => r == Ok::<Option<bool>, ConfigError>(b),
                Err(_) => r is Err && r->Err_0 is NotABoolean,
            },
    {
        match ini_getboolcoerce(&self.ini, section, key) {
            Ok(b) => Ok(b),
            Err(_) => Err(ConfigError::NotABoolean(key.to_owned())),
        }
    }
}

} // verus!
