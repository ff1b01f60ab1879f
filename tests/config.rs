use fzf_alt::config::{AppConfig, ConfigFault, ConfigSource, FiletypeSource, RuleField};
use fzf_alt::pattern::Pattern;

fn source(entries: Vec<(&str, Option<&str>, Option<&str>)>) -> ConfigSource {
    ConfigSource {
        entries: entries
            .into_iter()
            .map(|(n, t, s)| {
                (
                    n.to_owned(),
                    FiletypeSource { is_test: t.map(|x| x.to_owned()), strip: s.map(|x| x.to_owned()) },
                )
            })
            .collect(),
    }
}

#[test]
fn builtin_rules_load() {
    let config = AppConfig::load(&ConfigSource::default()).expect("built-in rules load");
    let elixir = config.get_filetype_config(&"elixir".to_owned()).expect("elixir rule");
    assert_eq!(elixir.is_test.as_str(), "_test.exs$");
    assert_eq!(elixir.strip.as_str(), "(?P<p>[^_\\\\/]+)_?(\\w+)?.exs?$");
    let python = config.get_filetype_config(&"python".to_owned()).expect("python rule");
    assert_eq!(python.is_test.as_str(), "(tests|test)_(\\w+).py");
    assert_eq!(python.strip.as_str(), "src/(?P<p>\\w+).py$");
    assert!(config.get_filetype_config(&"haskell".to_owned()).is_none());
    assert!(config.get_filetype_config(&"Elixir".to_owned()).is_none());
}

#[test]
fn missing_test_pattern_is_reported() {
    let e = AppConfig::load(&source(vec![("go", None, Some("(?P<p>\\w+).go$"))])).err().expect("an error");
    assert_eq!(e.filetype, "go");
    assert_eq!(e.fault, ConfigFault::MissingField(RuleField::IsTest));
}

#[test]
fn missing_strip_pattern_is_reported() {
    let e = AppConfig::load(&source(vec![("go", Some("_test.go$"), None)])).err().expect("an error");
    assert_eq!(e.filetype, "go");
    assert_eq!(e.fault, ConfigFault::MissingField(RuleField::Strip));
}

#[test]
fn invalid_patterns_are_reported() {
    let e = AppConfig::load(&source(vec![("go", Some("foo(bar"), Some("x"))])).err().expect("an error");
    assert_eq!(e.fault, ConfigFault::InvalidPattern(RuleField::IsTest));
    let e = AppConfig::load(&source(vec![
        ("rust", Some("tests/"), Some("(?P<p>\\w+).rs$")),
        ("go", Some("_test.go$"), Some("[unclosed")),
    ]))
    .err()
    .expect("an error");
    assert_eq!(e.filetype, "go");
    assert_eq!(e.fault, ConfigFault::InvalidPattern(RuleField::Strip));
}

#[test]
fn duplicate_filetype_is_reported() {
    let e = AppConfig::load(&source(vec![
        ("go", Some("_test.go$"), Some("x")),
        ("go", Some("_test.go$"), Some("y")),
    ]))
    .err()
    .expect("an error");
    assert_eq!(e.filetype, "go");
    assert_eq!(e.fault, ConfigFault::DuplicateFiletype);
}

#[test]
fn first_faulty_entry_is_reported() {
    let e = AppConfig::load(&source(vec![
        ("a", Some("("), Some("x")),
        ("b", None, None),
    ]))
    .err()
    .expect("an error");
    assert_eq!(e.filetype, "a");
}

#[test]
fn empty_configuration_loads() {
    let config = AppConfig::load(&source(vec![])).expect("no rules");
    assert!(config.get_filetype_config(&"elixir".to_owned()).is_none());
}

#[test]
fn pattern_search_and_groups() {
    let p = Pattern::new("(?P<p>[a-z]+)_(?P<q>\\d+)?").expect("compiles");
    assert!(p.is_match("xx abc_ yy"));
    assert!(!p.is_match("ABC"));
    assert_eq!(p.named_group("xx abc_12", "p"), Some("abc".to_owned()));
    assert_eq!(p.named_group("xx abc_12", "q"), Some("12".to_owned()));
    assert_eq!(p.named_group("xx abc_", "q"), None);
    assert_eq!(p.named_group("ABC", "p"), None);
    assert_eq!(p.named_group("abc_1", "r"), None);
    assert!(Pattern::new("foo(bar").is_err());
}
