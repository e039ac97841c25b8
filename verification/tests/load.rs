use proxy_settings::{FileRead, IoStep, ProxyManager, ProxySettings, SettingsError};

fn content(text: &str) -> FileRead {
    FileRead::Content(text.to_string())
}

fn parse_cause(outcome: Result<ProxySettings, SettingsError>) -> String {
    match outcome {
        Err(SettingsError::Parse { cause }) => cause,
        other => panic!("expected a parse error, got {:?}", other),
    }
}

#[test]
fn default_settings_are_disabled_with_local_url() {
    let settings = ProxySettings::default();
    assert!(!settings.enabled);
    assert_eq!(settings.url, "http://127.0.0.1:7890");
}

#[test]
fn load_of_missing_file_gives_default() {
    let loaded = ProxyManager::load(FileRead::Missing);
    assert_eq!(
        loaded,
        Ok(ProxySettings { enabled: false, url: "http://127.0.0.1:7890".to_string() })
    );
}

#[test]
fn load_of_unreadable_file_is_read_error() {
    let loaded = ProxyManager::load(FileRead::Unreadable("Permission denied (os error 13)".to_string()));
    assert_eq!(
        loaded,
        Err(SettingsError::Io {
            step: IoStep::Read,
            cause: "Permission denied (os error 13)".to_string(),
        })
    );
}

#[test]
fn load_reads_indented_object() {
    let loaded = ProxyManager::load(content(
        "{\n  \"enabled\": true,\n  \"url\": \"http://10.0.0.2:3128\"\n}",
    ));
    assert_eq!(loaded, Ok(ProxySettings { enabled: true, url: "http://10.0.0.2:3128".to_string() }));
}

#[test]
fn load_reads_compact_object() {
    let loaded = ProxyManager::load(content("{\"enabled\":false,\"url\":\"socks5://proxy\"}"));
    assert_eq!(loaded, Ok(ProxySettings { enabled: false, url: "socks5://proxy".to_string() }));
}

#[test]
fn load_reads_object_with_other_whitespace_and_order() {
    let loaded = ProxyManager::load(content(
        " \t{\r\n\"url\" :\t\"x\" ,\n\n \"enabled\"\n:\ntrue }\n",
    ));
    assert_eq!(loaded, Ok(ProxySettings { enabled: true, url: "x".to_string() }));
}

#[test]
fn load_passes_over_unknown_members() {
    let loaded = ProxyManager::load(content(
        "{\"version\": 3, \"enabled\": true, \"tags\": [1, {\"a\": null}], \"url\": \"u\"}",
    ));
    assert_eq!(loaded, Ok(ProxySettings { enabled: true, url: "u".to_string() }));
}

#[test]
fn load_decodes_escapes_in_url() {
    let loaded = ProxyManager::load(content(
        "{\"enabled\": true, \"url\": \"a\\\"b\\\\c\\n\\u00e9\\ud83d\\ude00\"}",
    ));
    assert_eq!(
        loaded,
        Ok(ProxySettings { enabled: true, url: "a\"b\\c\n\u{e9}\u{1F600}".to_string() })
    );
}

#[test]
fn load_of_text_that_is_not_json_is_parse_error() {
    let loaded = ProxyManager::load(content("not json"));
    assert_eq!(parse_cause(loaded.clone()), "expected ident at line 1 column 2");
    assert_ne!(loaded, Ok(ProxySettings::default()));
    assert_eq!(
        loaded.unwrap_err().message(),
        "解析代理设置失败: expected ident at line 1 column 2"
    );
}

#[test]
fn load_of_json_string_is_parse_error() {
    let loaded = ProxyManager::load(content("\"not json\""));
    assert_eq!(
        parse_cause(loaded),
        "invalid type: string \"not json\", expected a map at line 1 column 10"
    );
}

#[test]
fn load_of_empty_file_is_parse_error() {
    let loaded = ProxyManager::load(content(""));
    assert_eq!(parse_cause(loaded), "EOF while parsing a value at line 1 column 0");
}

#[test]
fn load_of_truncated_file_is_parse_error() {
    let loaded = ProxyManager::load(content("{\n  \"enabled\": true,\n  \"url\": \"http://"));
    assert_eq!(parse_cause(loaded), "EOF while parsing a string at line 3 column 17");
}

#[test]
fn load_of_object_with_trailing_text_is_parse_error() {
    let loaded = ProxyManager::load(content("{\"enabled\": true, \"url\": \"u\"} x"));
    assert_eq!(parse_cause(loaded), "trailing characters at line 1 column 31");
}

#[test]
fn load_of_array_is_parse_error() {
    let loaded = ProxyManager::load(content("[true, \"u\"]"));
    assert_eq!(parse_cause(loaded), "invalid type: sequence, expected a map at line 1 column 0");
}

#[test]
fn load_of_empty_object_misses_enabled() {
    let loaded = ProxyManager::load(content("{}"));
    assert_eq!(parse_cause(loaded), "missing field `enabled`");
}

#[test]
fn load_without_url_misses_url() {
    let loaded = ProxyManager::load(content("{\"enabled\": true}"));
    assert_eq!(parse_cause(loaded), "missing field `url`");
}

#[test]
fn load_without_enabled_misses_enabled() {
    let loaded = ProxyManager::load(content("{\"url\": \"u\"}"));
    assert_eq!(parse_cause(loaded), "missing field `enabled`");
}

#[test]
fn load_with_mistyped_enabled_is_parse_error() {
    for text in [
        "{\"enabled\": \"true\", \"url\": \"u\"}",
        "{\"enabled\": 1, \"url\": \"u\"}",
        "{\"enabled\": null, \"url\": \"u\"}",
        "{\"enabled\": [true], \"url\": \"u\"}",
        "{\"enabled\": {}, \"url\": \"u\"}",
    ] {
        let loaded = ProxyManager::load(content(text));
        assert_eq!(parse_cause(loaded), "field `enabled` is not a boolean");
    }
}

#[test]
fn load_with_mistyped_url_is_parse_error() {
    for text in [
        "{\"enabled\": true, \"url\": false}",
        "{\"enabled\": true, \"url\": 7890}",
        "{\"enabled\": true, \"url\": null}",
        "{\"enabled\": true, \"url\": [\"u\"]}",
        "{\"enabled\": true, \"url\": {\"u\": \"u\"}}",
    ] {
        let loaded = ProxyManager::load(content(text));
        assert_eq!(parse_cause(loaded), "field `url` is not a string");
    }
}

#[test]
fn load_looks_at_enabled_before_url() {
    let loaded = ProxyManager::load(content("{\"url\": 1, \"enabled\": 2}"));
    assert_eq!(parse_cause(loaded), "field `enabled` is not a boolean");
}

#[test]
fn load_keeps_url_as_written() {
    let loaded = ProxyManager::load(content("{\"enabled\": true, \"url\": \"  not a url \"}"));
    assert_eq!(loaded, Ok(ProxySettings { enabled: true, url: "  not a url ".to_string() }));
}
