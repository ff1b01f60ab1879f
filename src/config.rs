//! The rule table: for each filetype, a pattern that tells test files from the
//! others and a pattern that cuts the search key out of a file name.
//!
//! A configuration is first read as text (`ConfigSource`), then checked and
//! compiled once into an `AppConfig`, which does not change afterwards.

use vstd::prelude::*;

use crate::pattern::{regex_compiles, Pattern};

verus! {

/// Which of the two patterns of a rule.
#[derive(Clone, Copy, Debug, PartialEq, Eq, Structural)]
pub enum RuleField {
    IsTest,
    Strip,
}

/// What is wrong with one entry of a configuration.
#[derive(Clone, Copy, Debug, PartialEq, Eq, Structural)]
pub enum ConfigFault {
    /// The entry lacks the pattern.
    MissingField(RuleField),
    /// The pattern does not compile.
    InvalidPattern(RuleField),
    /// An earlier entry has the same filetype name.
    DuplicateFiletype,
}

/// A configuration that cannot be loaded: the filetype of the first faulty
/// entry, and its fault.
#[derive(Clone, Debug)]
pub struct ConfigError {
    pub filetype: String,
    pub fault: ConfigFault,
}

/// The text of one filetype's rule, as read from a configuration file.
#[derive(Clone, Debug)]
pub struct FiletypeSource {
    pub is_test: Option<String>,
    pub strip: Option<String>,
}

/// A configuration as read: filetype names with the text of their rules.
#[derive(Clone, Debug)]
pub struct ConfigSource {
    pub entries: Vec<(String, FiletypeSource)>,
}

pub open spec fn opt_view(o: Option<String>) -> Option<Seq<char>> {
    match o {
        Some(s) => Some(s@),
        None => None,
    }
}

/// One entry of a configuration as text: name, test pattern, strip pattern.
pub type SourceEntry = (Seq<char>, Option<Seq<char>>, Option<Seq<char>>);

pub open spec fn source_entry(e: (String, FiletypeSource)) -> SourceEntry {
    (e.0@, opt_view(e.1.is_test), opt_view(e.1.strip))
}

impl View for ConfigSource {
    type V = Seq<SourceEntry>;

    open spec fn view(&self) -> Seq<SourceEntry> {
        self.entries@.map_values(|e: (String, FiletypeSource)| source_entry(e))
    }
}

/// What is wrong with the pattern text of `field`, if anything.
pub open spec fn pattern_fault(field: RuleField, text: Option<Seq<char>>) -> Option<ConfigFault> {
    match text {
        None => Some(ConfigFault::MissingField(field)),
        Some(t) => if regex_compiles(t) {
            None
        } else {
            Some(ConfigFault::InvalidPattern(field))
        },
    }
}

/// What is wrong with the entry at `i`, checked in this order: its name was
/// used before, then its test pattern, then its strip pattern.
pub open spec fn fault_at(entries: Seq<SourceEntry>, i: int) -> Option<ConfigFault> {
    if exists|j: int| 0 <= j < i && #[trigger] entries[j].0 == entries[i].0 {
        Some(ConfigFault::DuplicateFiletype)
    } else if pattern_fault(RuleField::IsTest, entries[i].1) is Some {
        pattern_fault(RuleField::IsTest, entries[i].1)
    } else {
        pattern_fault(RuleField::Strip, entries[i].2)
    }
}

/// A configuration loads when no entry has a fault.
pub open spec fn source_loads(entries: Seq<SourceEntry>) -> bool {
    forall|i: int| 0 <= i < entries.len() ==> #[trigger] fault_at(entries, i) is None
}

/// A compiled rule: the test pattern and the strip pattern.
pub struct FiletypeConfig {
    pub is_test: Pattern,
    pub strip: Pattern,
}

impl Clone for FiletypeConfig {
    fn clone(&self) -> (r: FiletypeConfig)
        ensures
            r.is_test@ == self.is_test@,
            r.strip@ == self.strip@,
    {
        FiletypeConfig { is_test: self.is_test.clone(), strip: self.strip.clone() }
    }
}

/// One entry of a loaded table: name, test pattern, strip pattern.
pub type RuleEntry = (Seq<char>, Seq<char>, Seq<char>);

pub open spec fn rule_entry(e: (String, FiletypeConfig)) -> RuleEntry {
    (e.0@, e.1.is_test@, e.1.strip@)
}

pub open spec fn names_unique(entries: Seq<RuleEntry>) -> bool {
    forall|i: int, j: int|
        0 <= i < entries.len() && 0 <= j < entries.len() && i != j ==> #[trigger] entries[i].0
            != #[trigger] entries[j].0
}

/// The table of rules, one for each filetype name; names are unique.
pub struct AppConfig {
    entries: Vec<(String, FiletypeConfig)>,
}

impl View for AppConfig {
    type V = Seq<RuleEntry>;

    closed spec fn view(&self) -> Seq<RuleEntry> {
        self.entries@.map_values(|e: (String, FiletypeConfig)| rule_entry(e))
    }
}

impl AppConfig {
    #[verifier::type_invariant]
    spec fn inv(self) -> bool {
        names_unique(self@)
    }

    /// Checks and compiles a configuration. It loads exactly when no entry has
    /// a fault; the table then holds the entries in order. Otherwise the error
    /// names the first faulty entry and its fault.
    pub fn load(source: &ConfigSource) -> (r: Result<AppConfig, ConfigError>)
        ensures
            r is Ok <==> source_loads(source@),
            r matches Ok(cfg) ==> cfg@.len() == source@.len() && forall|i: int|
                0 <= i < source@.len() ==> #[trigger] cfg@[i] == (
                    source@[i].0,
                    source@[i].1.unwrap(),
                    source@[i].2.unwrap(),
                ),
            r matches Err(e) ==> exists|i: int|
                0 <= i < source@.len() && e.filetype@ == source@[i].0 && #[trigger] fault_at(
                    source@,
                    i,
                ) == Some(e.fault) && forall|j: int| 0 <= j < i ==> fault_at(source@, j) is None,
    {
        let mut entries: Vec<(String, FiletypeConfig)> = Vec::new();
        let n = source.entries.len();
        let mut i: usize = 0;
        while i < n
            invariant
                n == source.entries@.len(),
                i <= n,
                entries@.len() == i,
                forall|k: int| 0 <= k < i ==> #[trigger] fault_at(source@, k) is None,
                forall|k: int|
                    0 <= k < i ==> #[trigger] rule_entry(entries@[k]) == (
                        source@[k].0,
                        source@[k].1.unwrap(),
                        source@[k].2.unwrap(),
                    ),
            decreases n - i,
        {
            let name = &source.entries[i].0;
            let text = &source.entries[i].1;
            let mut dup = false;
            let mut j: usize = 0;
            while j < i
                invariant
                    i < n,
                    n == source.entries@.len(),
                    j <= i,
                    name@ == source@[i as int].0,
                    dup <==> exists|k: int| 0 <= k < j && #[trigger] source@[k].0 == source@[i as int].0,
                decreases i - j,
            {
                assert(source@[j as int].0 == source.entries@[j as int].0@);
                if source.entries[j].0 == *name {
                    dup = true;
                }
                j += 1;
            }
            proof {
                assert(source@[i as int] == source_entry(source.entries@[i as int]));
            }
            if dup {
                assert(fault_at(source@, i as int) == Some(ConfigFault::DuplicateFiletype));
                return Err(ConfigError { filetype: name.clone(), fault: ConfigFault::DuplicateFiletype });
            }
            let is_test = match &text.is_test {
                None => {
                    assert(fault_at(source@, i as int) == Some(ConfigFault::MissingField(RuleField::IsTest)));
                    return Err(ConfigError {
                        filetype: name.clone(),
                        fault: ConfigFault::MissingField(RuleField::IsTest),
                    });
                },
                Some(t) => match Pattern::new(t.as_str()) {
                    Ok(p) => p,
                    Err(_) => {
                        assert(fault_at(source@, i as int) == Some(ConfigFault::InvalidPattern(RuleField::IsTest)));
                        return Err(ConfigError {
                            filetype: name.clone(),
                            fault: ConfigFault::InvalidPattern(RuleField::IsTest),
                        });
                    },
                },
            };
            let strip = match &text.strip {
                None => {
                    assert(fault_at(source@, i as int) == Some(ConfigFault::MissingField(RuleField::Strip)));
                    return Err(ConfigError {
                        filetype: name.clone(),
                        fault: ConfigFault::MissingField(RuleField::Strip),
                    });
                },
                Some(t) => match Pattern::new(t.as_str()) {
                    Ok(p) => p,
                    Err(_) => {
                        assert(fault_at(source@, i as int) == Some(ConfigFault::InvalidPattern(RuleField::Strip)));
                        return Err(ConfigError {
                            filetype: name.clone(),
                            fault: ConfigFault::InvalidPattern(RuleField::Strip),
                        });
                    },
                },
            };
            entries.push((name.clone(), FiletypeConfig { is_test, strip }));
            i += 1;
        }
        proof {
            assert forall|a: int, b: int|
                0 <= a < entries@.len() && 0 <= b < entries@.len() && a != b implies #[trigger] rule_entry(entries@[a]).0
                    != #[trigger] rule_entry(entries@[b]).0 by {
                let (lo, hi) = if a < b { (a, b) } else { (b, a) };
                assert(fault_at(source@, hi) is None);
                assert(rule_entry(entries@[lo]).0 == source@[lo].0);
                assert(rule_entry(entries@[hi]).0 == source@[hi].0);
            }
        }
        let cfg = AppConfig { entries };
        Ok(cfg)
    }

    /// The rule of `filetype`, or `None` where the table has no such name.
    pub fn get_filetype_config(&self, filetype: &String) -> (r: Option<&FiletypeConfig>)
        ensures
            r is None <==> forall|i: int| 0 <= i < self@.len() ==> #[trigger] self@[i].0 != filetype@,
            r matches Some(c) ==> forall|i: int|
                0 <= i < self@.len() && #[trigger] self@[i].0 == filetype@ ==> self@[i].1 == c.is_test@
                    && self@[i].2 == c.strip@,
    {
        proof {
            use_type_invariant(self);
        }
        let mut i: usize = 0;
        while i < self.entries.len()
            invariant
                i <= self@.len(),
                self@.len() == self.entries@.len(),
                names_unique(self@),
                forall|k: int| 0 <= k < i ==> #[trigger] self@[k].0 != filetype@,
            decreases self.entries@.len() - i,
        {
            assert(self@[i as int] == rule_entry(self.entries@[i as int]));
            if self.entries[i].0 == *filetype {
                assert(self@[i as int].0 == filetype@);
                return Some(&self.entries[i].1);
            }
            i += 1;
        }
        None
    }
}

/// The built-in rule text of one filetype.
fn builtin(name: &str, is_test: &str, strip: &str) -> (r: (String, FiletypeSource))
    ensures
        source_entry(r) == (name@, Some(is_test@), Some(strip@)),
{
    (name.to_owned(), FiletypeSource { is_test: Some(is_test.to_owned()), strip: Some(strip.to_owned()) })
}

impl Default for ConfigSource {
    /// The built-in rules for Elixir and Python.
    fn default() -> (r: ConfigSource)
        ensures
            r@ == seq![
                ("elixir"@, Some("_test.exs$"@), Some("(?P<p>[^_\\\\/]+)_?(\\w+)?.exs?$"@)),
                ("python"@, Some("(tests|test)_(\\w+).py"@), Some("src/(?P<p>\\w+).py$"@)),
            ],
    {
        let mut entries: Vec<(String, FiletypeSource)> = Vec::new();
        entries.push(builtin("elixir", "_test.exs$", "(?P<p>[^_\\\\/]+)_?(\\w+)?.exs?$"));
        entries.push(builtin("python", "(tests|test)_(\\w+).py", "src/(?P<p>\\w+).py$"));
        let r = ConfigSource { entries };
        assert(r@ =~= seq![
            ("elixir"@, Some("_test.exs$"@), Some("(?P<p>[^_\\\\/]+)_?(\\w+)?.exs?$"@)),
            ("python"@, Some("(tests|test)_(\\w+).py"@), Some("src/(?P<p>\\w+).py$"@)),
        ]);
        r
    }
}

} // verus!
