//! Configuration of a new [`Builder`](crate::Builder).
use vstd::prelude::*;

verus! {

/// The regular expression used by [`Obfuscator::default`] to determine which key data to
/// obfuscate.
pub const OBFUSCATOR_DEFAULT_KEY_REGEX: &'static str = r"(?i)pass|pw(?:or)?d|secret|(?:api|private|public|access)[_-]?key|token|consumer[_-]?(?:id|key|secret)|sign(?:ed|ature)|bearer|authorization|jsessionid|phpsessid|asp\.net[_-]sessionid|sid|jwt";

/// The regular expression used by [`Obfuscator::default`] to determine which value data to
/// obfuscate.
pub const OBFUSCATOR_DEFAULT_VAL_REGEX: &'static str = r#"(?i)(?:p(?:ass)?w(?:or)?d|pass(?:[_-]?phrase)?|secret(?:[_-]?key)?|(?:(?:api|private|public|access)[_-]?)key(?:[_-]?id)?|(?:(?:auth|access|id|refresh)[_-]?)?token|consumer[_-]?(?:id|key|secret)|sign(?:ed|ature)?|auth(?:entication|orization)?|jsessionid|phpsessid|asp\.net(?:[_-]|-)sessionid|sid|jwt)(?:\s*=([^;&]+)|"\s*:\s*("[^"]+"|\d+))|bearer\s+([a-z0-9\._\-]+)|token\s*:\s*([a-z0-9]{13})|gh[opsu]_([0-9a-zA-Z]{36})|ey[I-L][\w=-]+\.(ey[I-L][\w=-]+(?:\.[\w.+\/=-]+)?)|[\-]{5}BEGIN[a-z\s]+PRIVATE\sKEY[\-]{5}([^\-]+)[\-]{5}END[a-z\s]+PRIVATE\sKEY|ssh-rsa\s*([a-z0-9\/\.+]{100,})"#;

/// The limits attached to a [`Config`]; zero leaves the engine's own default in place.
#[derive(Clone, Copy, Debug)]
pub struct Limits {
    /// The largest number of elements of a container the engine looks at.
    pub max_container_size: u32,
    /// The deepest nesting of containers the engine looks into.
    pub max_container_depth: u32,
    /// The longest string the engine looks at, in bytes.
    pub max_string_length: u32,
}

impl Default for Limits {
    fn default() -> (r: Self)
        ensures
            r.max_container_size == 0,
            r.max_container_depth == 0,
            r.max_string_length == 0,
    {
        Limits { max_container_size: 0, max_container_depth: 0, max_string_length: 0 }
    }
}

/// True when a text can be handed to the engine as a C string: it holds no NUL character.
pub open spec fn c_compatible(s: Seq<char>) -> bool {
    forall|i: int| 0 <= i < s.len() ==> s[i] != '\0'
}

/// Obfuscation configuration for the WAF.
///
/// This is a pair of regular expressions that are respectively used to determine which key and
/// value data to obfuscate when producing WAF outputs.
#[derive(Clone, Debug)]
pub struct Obfuscator {
    key_regex: Option<String>,
    value_regex: Option<String>,
}

/// Copies an optional owned text.
fn copied_text(s: &Option<String>) -> (r: Option<String>)
    ensures
        r is Some <==> s is Some,
        r is Some ==> r->0@ == s->0@,
{
    match s {
        Some(t) => Some(t.clone()),
        None => None,
    }
}

/// Copies an optional text.
fn owned_text(s: Option<&str>) -> (r: Option<String>)
    ensures
        r is Some <==> s is Some,
        r is Some ==> r->0@ == s->0@,
{
    match s {
        Some(t) => Some(t.to_owned()),
        None => None,
    }
}

impl Obfuscator {
    /// Creates a new [`Obfuscator`] with the provided key and value regular expressions.
    pub fn new(key_regex: Option<&str>, value_regex: Option<&str>) -> (r: Self)
        requires
            key_regex matches Some(k) ==> c_compatible(k@),
            value_regex matches Some(v) ==> c_compatible(v@),
        ensures
            r.key_regex_spec() == (match key_regex {
                Some(k) => Some(k@),
                None => None::<Seq<char>>,
            }),
            r.value_regex_spec() == (match value_regex {
                Some(v) => Some(v@),
                None => None::<Seq<char>>,
            }),
    {
        Obfuscator { key_regex: owned_text(key_regex), value_regex: owned_text(value_regex) }
    }

    /// Returns a copy of these settings, holding the same regular expressions.
    pub fn copy(&self) -> (r: Self)
        ensures
            r.key_regex_spec() == self.key_regex_spec(),
            r.value_regex_spec() == self.value_regex_spec(),
    {
        Obfuscator { key_regex: copied_text(&self.key_regex), value_regex: copied_text(&self.value_regex) }
    }

    /// The regular expression selecting key data to obfuscate, if one is set.
    pub closed spec fn key_regex_spec(&self) -> Option<Seq<char>> {
        match self.key_regex {
            Some(k) => Some(k@),
            None => None,
        }
    }

    /// The regular expression selecting value data to obfuscate, if one is set.
    pub closed spec fn value_regex_spec(&self) -> Option<Seq<char>> {
        match self.value_regex {
            Some(v) => Some(v@),
            None => None,
        }
    }

    /// Returns the regular expression used to determine key data to be obfuscated, if one has
    /// been set.
    pub fn key_regex(&self) -> (r: Option<&str>)
        ensures
            r is Some <==> self.key_regex_spec() is Some,
            r is Some ==> r->0@ == self.key_regex_spec()->0,
    {
        match &self.key_regex {
            Some(k) => Some(k.as_str()),
            None => None,
        }
    }

    /// Returns the regular expression used to determine value data to be obfuscated, if one
    /// has been set.
    pub fn value_regex(&self) -> (r: Option<&str>)
        ensures
            r is Some <==> self.value_regex_spec() is Some,
            r is Some ==> r->0@ == self.value_regex_spec()->0,
    {
        match &self.value_regex {
            Some(v) => Some(v.as_str()),
            None => None,
        }
    }
}

impl Default for Obfuscator {
    fn default() -> (r: Self)
        ensures
            r.key_regex_spec() == Some(OBFUSCATOR_DEFAULT_KEY_REGEX@),
            r.value_regex_spec() == Some(OBFUSCATOR_DEFAULT_VAL_REGEX@),
    {
        Obfuscator {
            key_regex: Some(OBFUSCATOR_DEFAULT_KEY_REGEX.to_owned()),
            value_regex: Some(OBFUSCATOR_DEFAULT_VAL_REGEX.to_owned()),
        }
    }
}

/// The configuration for a new [`Builder`](crate::Builder): resource limits and obfuscation
/// settings, owned independently of any builder.
#[derive(Clone, Debug)]
pub struct Config {
    limits: Limits,
    obfuscator: Obfuscator,
}

impl Config {
    /// Creates a new [`Config`] with the provided [`Limits`] and [`Obfuscator`].
    pub fn new(limits: Limits, obfuscator: Obfuscator) -> (r: Self)
        ensures
            r.limits_spec() == limits,
            r.obfuscator_spec() == obfuscator,
    {
        Config { limits, obfuscator }
    }

    /// The limits of this configuration.
    pub closed spec fn limits_spec(&self) -> Limits {
        self.limits
    }

    /// The obfuscation settings of this configuration.
    pub closed spec fn obfuscator_spec(&self) -> Obfuscator {
        self.obfuscator
    }

    /// Returns the limits of this configuration.
    pub fn limits(&self) -> (r: Limits)
        ensures
            r == self.limits_spec(),
    {
        self.limits
    }

    /// Returns the obfuscation settings of this configuration.
    pub fn obfuscator(&self) -> (r: &Obfuscator)
        ensures
            *r == self.obfuscator_spec(),
    {
        &self.obfuscator
    }
}

impl Default for Config {
    fn default() -> (r: Self)
        ensures
            r.limits_spec().max_container_size == 0,
            r.limits_spec().max_container_depth == 0,
            r.limits_spec().max_string_length == 0,
            r.obfuscator_spec().key_regex_spec() == Some(OBFUSCATOR_DEFAULT_KEY_REGEX@),
            r.obfuscator_spec().value_regex_spec() == Some(OBFUSCATOR_DEFAULT_VAL_REGEX@),
    {
        Config::new(Limits::default(), Obfuscator::default())
    }
}

} // verus!
