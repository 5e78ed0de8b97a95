use launch_relay::schemes::{configured_schemes, str_is_blank};

// What the host-facing shell does with the configuration value under the
// "deep-link" key: pull out the desktop scheme list as plain strings, or
// None when the value is absent or not shaped as expected.
fn config_scheme_entries(text: &str) -> Option<Vec<String>> {
    let value: serde_json::Value = match serde_json::from_str(text) {
        Ok(v) => v,
        Err(_) => return None,
    };
    let deep_link = value.get("deep-link")?;
    let desktop = deep_link.get("desktop")?;
    let schemes = deep_link_schemes(desktop)?;
    Some(schemes)
}

fn deep_link_schemes(desktop: &serde_json::Value) -> Option<Vec<String>> {
    let arr = desktop.get("schemes")?.as_array()?;
    let mut out: Vec<String> = Vec::new();
    for item in arr {
        out.push(item.as_str()?.to_string());
    }
    Some(out)
}

#[test]
fn blank_entries_are_discarded() {
    let text = "{ \"deep-link\": { \"desktop\": { \"schemes\": [\"chronos\", \"\"] } } }";
    let entries = config_scheme_entries(text);
    assert_eq!(
        entries,
        Some(vec!["chronos".to_string(), "".to_string()])
    );
    let set = configured_schemes(entries);
    assert_eq!(set, vec!["chronos".to_string()]);
}

#[test]
fn whitespace_only_entries_are_discarded() {
    let entries = vec![" \t ".to_string(), "chronos-dev".to_string(), "\n".to_string()];
    let set = configured_schemes(Some(entries));
    assert_eq!(set, vec!["chronos-dev".to_string()]);
}

#[test]
fn malformed_configuration_yields_empty_set() {
    let text = "{ \"deep-link\": 42 }";
    let entries = config_scheme_entries(text);
    assert_eq!(entries, None);
    let set = configured_schemes(entries);
    assert!(set.is_empty());
}

#[test]
fn absent_configuration_yields_empty_set() {
    let text = "{ \"other-plugin\": {} }";
    assert_eq!(config_scheme_entries(text), None);
    assert!(configured_schemes(None).is_empty());
}

#[test]
fn non_string_scheme_entry_is_malformed() {
    let text = "{ \"deep-link\": { \"desktop\": { \"schemes\": [\"chronos\", 7] } } }";
    let entries = config_scheme_entries(text);
    assert_eq!(entries, None);
    assert!(configured_schemes(entries).is_empty());
}

#[test]
fn order_of_kept_entries_is_preserved() {
    let entries = vec![
        "b".to_string(),
        " ".to_string(),
        "a".to_string(),
        "c".to_string(),
    ];
    let set = configured_schemes(Some(entries));
    assert_eq!(set, vec!["b".to_string(), "a".to_string(), "c".to_string()]);
}

#[test]
fn blankness_of_strings() {
    assert!(str_is_blank(""));
    assert!(str_is_blank(" \t\r\n"));
    assert!(!str_is_blank("x"));
    assert!(!str_is_blank(" x "));
}
