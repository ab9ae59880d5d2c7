//! The stored credential profile: one `[Config]` section with the keys
//! `site`, `username` and `password`.
//!
//! Reading and writing the file itself is left to the caller; this module
//! builds the INI document to write and extracts the profile from the text
//! that was read.

use vstd::prelude::*;
use vstd::string::*;

verus! {

#[verifier::external_type_specification]
#[verifier::external_body]
pub struct ExIni(ini::Ini);

/// What an INI document holds: for each named section (the first one of that
/// name), the first value of each of its keys.
pub uninterp spec fn ini_sections(i: ini::Ini) -> Map<Seq<char>, Map<Seq<char>, Seq<char>>>;

/// The sections that `text` parses to, or nothing when it is not valid INI.
pub uninterp spec fn ini_document(text: Seq<char>) -> Option<Map<Seq<char>, Map<Seq<char>, Seq<char>>>>;

pub open spec fn section_or_empty(
    m: Map<Seq<char>, Map<Seq<char>, Seq<char>>>,
    name: Seq<char>,
) -> Map<Seq<char>, Seq<char>> {
    if m.contains_key(name) {
        m[name]
    } else {
        Map::empty()
    }
}

pub open spec fn no_sections() -> Map<Seq<char>, Map<Seq<char>, Seq<char>>> {
    Map::empty()
}

/// Relies on `ini::Ini::new`: a document with no sections.
#[verifier::external_body]
fn new_ini() -> (r: ini::Ini)
    ensures
        ini_sections(r) == no_sections(),
{
    ini::Ini::new()
}

/// Relies on `SectionSetter::set` (reached through `ini::Ini::with_section`):
/// creates the section when it is absent, then replaces every value of `key`
/// in its first occurrence by `value`.
#[verifier::external_body]
fn ini_set(conf: &mut ini::Ini, section: &str, key: &str, value: &str)
    ensures
        ini_sections(*final(conf)) == ini_sections(*old(conf)).insert(
            section@,
            section_or_empty(ini_sections(*old(conf)), section@).insert(key@, value@),
        ),
{
    conf.with_section(Some(section)).set(key, value);
}

/// Relies on `ini::Ini::load_from_str`, whose result depends on the text alone.
#[verifier::external_body]
fn ini_load(text: &str) -> (r: Option<ini::Ini>)
    ensures
        match r {
            Some(i) => ini_document(text@) == Some(ini_sections(i)),
            None => ini_document(text@) is None,
        },
{
    ini::Ini::load_from_str(text).ok()
}

/// Relies on `ini::Ini::section`: whether a section of that name exists.
#[verifier::external_body]
fn ini_has_section(conf: &ini::Ini, section: &str) -> (r: bool)
    ensures
        r == ini_sections(*conf).contains_key(section@),
{
    conf.section(Some(section)).is_some()
}

/// Relies on `ini::Ini::get_from`: the first value of `key` in the first
/// section named `section`.
#[verifier::external_body]
fn ini_get(conf: &ini::Ini, section: &str, key: &str) -> (r: Option<String>)
    ensures
        match r {
            Some(v) => ini_sections(*conf).contains_key(section@) && ini_sections(
                *conf,
            )[section@].contains_key(key@) && ini_sections(*conf)[section@][key@] == v@,
            None => !(ini_sections(*conf).contains_key(section@) && ini_sections(
                *conf,
            )[section@].contains_key(key@)),
        },
{
    conf.get_from(Some(section), key).map(|v| v.to_owned())
}

/// The stored site, username and password.
#[derive(Debug, PartialEq, Eq)]
pub struct Config {
    pub site: String,
    pub username: String,
    pub password: String,
}

/// Why the stored profile could not be had.
#[derive(Debug, PartialEq, Eq)]
pub enum ConfigFailure {
    /// There is no profile file.
    Missing,
    /// The file is not valid INI.
    Unparsable,
    /// The `Config` section, or the key named here, is absent.
    Malformed(String),
}

/// The sections of a document that stores one profile.
pub open spec fn profile_sections(site: Seq<char>, username: Seq<char>, password: Seq<char>) -> Map<
    Seq<char>,
    Map<Seq<char>, Seq<char>>,
> {
    Map::empty().insert(
        "Config"@,
        Map::empty().insert("site"@, site).insert("username"@, username).insert(
            "password"@,
            password,
        ),
    )
}

/// The profile that sections hold, or the name of the first of the section
/// and its three keys that is absent.
pub open spec fn profile_of(m: Map<Seq<char>, Map<Seq<char>, Seq<char>>>) -> Result<
    (Seq<char>, Seq<char>, Seq<char>),
    Seq<char>,
> {
    if !m.contains_key("Config"@) {
        Err("Config"@)
    } else if !m["Config"@].contains_key("site"@) {
        Err("site"@)
    } else if !m["Config"@].contains_key("username"@) {
        Err("username"@)
    } else if !m["Config"@].contains_key("password"@) {
        Err("password"@)
    } else {
        Ok((m["Config"@]["site"@], m["Config"@]["username"@], m["Config"@]["password"@]))
    }
}

/// `r` is what reading sections `m` gives.
pub open spec fn read_from_sections(
    m: Map<Seq<char>, Map<Seq<char>, Seq<char>>>,
    r: Result<Config, ConfigFailure>,
) -> bool {
    match profile_of(m) {
        Ok((site, username, password)) => r matches Ok(c) && c.site@ == site && c.username@
            == username && c.password@ == password,
        Err(name) => r matches Err(ConfigFailure::Malformed(n)) && n@ == name,
    }
}

/// Builds the document that stores the given profile, replacing any other.
pub fn create_config(site: String, username: String, password: String) -> (r: ini::Ini)
    ensures
        ini_sections(r) == profile_sections(site@, username@, password@),
{
    let mut conf = new_ini();
    ini_set(&mut conf, "Config", "site", site.as_str());
    ini_set(&mut conf, "Config", "username", username.as_str());
    ini_set(&mut conf, "Config", "password", password.as_str());
    assert(ini_sections(conf) =~~= profile_sections(site@, username@, password@));
    conf
}

/// Extracts the profile from a loaded document.
pub fn config_from_ini(conf: &ini::Ini) -> (r: Result<Config, ConfigFailure>)
    ensures
        read_from_sections(ini_sections(*conf), r),
{
    if !ini_has_section(conf, "Config") {
        return Err(ConfigFailure::Malformed(String::from_str("Config")));
    }
    let site = match ini_get(conf, "Config", "site") {
        Some(v) => v,
        None => return Err(ConfigFailure::Malformed(String::from_str("site"))),
    };
    let username = match ini_get(conf, "Config", "username") {
        Some(v) => v,
        None => return Err(ConfigFailure::Malformed(String::from_str("username"))),
    };
    let password = match ini_get(conf, "Config", "password") {
        Some(v) => v,
        None => return Err(ConfigFailure::Malformed(String::from_str("password"))),
    };
    Ok(Config { site, username, password })
}

/// Reads the profile from the file's contents; `None` stands for a file
/// that does not exist. Missing fields are never filled with defaults.
pub fn read_config(contents: Option<&str>) -> (r: Result<Config, ConfigFailure>)
    ensures
        match contents {
            None => r matches Err(ConfigFailure::Missing),
            Some(text) => match ini_document(text@) {
                None => r matches Err(ConfigFailure::Unparsable),
                Some(m) => read_from_sections(m, r),
            },
        },
{
    match contents {
        None => Err(ConfigFailure::Missing),
        Some(text) => match ini_load(text) {
            None => Err(ConfigFailure::Unparsable),
            Some(conf) => config_from_ini(&conf),
        },
    }
}

/// A stored profile reads back as the same site, username and password.
pub proof fn lemma_profile_round_trip(site: Seq<char>, username: Seq<char>, password: Seq<char>)
    ensures
        profile_of(profile_sections(site, username, password)) == Ok::<
            (Seq<char>, Seq<char>, Seq<char>),
            Seq<char>,
        >((site, username, password)),
{
    reveal_strlit("site");
    reveal_strlit("username");
    reveal_strlit("password");
    assert("site"@.len() != "username"@.len());
    assert("site"@.len() != "password"@.len());
    assert("username"@[0] != "password"@[0]);
}

/// Relies on `str::ends_with` with a `char` pattern.
#[verifier::external_body]
fn ends_with_char(s: &str, c: char) -> (r: bool)
    ensures
        r == (s@.len() > 0 && s@.last() == c),
{
    s.ends_with(c)
}

/// Relies on `String::pop`: removes the last character, if there is one.
#[verifier::external_body]
fn pop_char(s: &mut String) -> (r: Option<char>)
    ensures
        old(s)@.len() == 0 ==> r is None && final(s)@ == old(s)@,
        old(s)@.len() > 0 ==> r == Some(old(s)@.last()) && final(s)@ == old(s)@.drop_last(),
{
    s.pop()
}

/// Removes one trailing newline from a line of input.
pub fn trim_newline(s: &mut String)
    ensures
        old(s)@.len() > 0 && old(s)@.last() == '\n' ==> final(s)@ == old(s)@.drop_last(),
        !(old(s)@.len() > 0 && old(s)@.last() == '\n') ==> final(s)@ == old(s)@,
{
    if ends_with_char(s.as_str(), '\n') {
        pop_char(s);
    }
}

} // verus!
