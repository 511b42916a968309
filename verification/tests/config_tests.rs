use personalization::config::{
    parse_config, resolve_load, serialize_config, FontType, LoadFailure, LoadResolution,
    PersonalizationConfig,
};

fn dot() -> PersonalizationConfig {
    PersonalizationConfig { font_type: FontType::Dot }
}

fn serif() -> PersonalizationConfig {
    PersonalizationConfig { font_type: FontType::Serif }
}

#[test]
fn font_family_mapping_is_exact() {
    assert_eq!(FontType::Dot.to_font_family(), "Nothing Font (5x7)");
    assert_eq!(FontType::Serif.to_font_family(), "C059");
}

#[test]
fn defaults_select_dot() {
    assert_eq!(FontType::default(), FontType::Dot);
    assert_eq!(PersonalizationConfig::default(), dot());
}

#[test]
fn serialize_produces_exact_text() {
    assert_eq!(serialize_config(&dot()), b"font_type = \"Dot\"\n".to_vec());
    assert_eq!(serialize_config(&serif()), b"font_type = \"Serif\"\n".to_vec());
}

#[test]
fn parse_accepts_plain_assignments() {
    assert_eq!(parse_config(b"font_type = \"Serif\"\n"), Some(serif()));
    assert_eq!(parse_config(b"font_type = \"Dot\"\n"), Some(dot()));
    assert_eq!(parse_config(b"font_type=\"Dot\""), Some(dot()));
    assert_eq!(parse_config(b"  \n\tfont_type\t=  \"Serif\"  \r\n"), Some(serif()));
}

#[test]
fn parse_rejects_malformed_documents() {
    assert_eq!(parse_config(b""), None);
    assert_eq!(parse_config(b"   \n  "), None);
    assert_eq!(parse_config(b"font_type = \"Comic\"\n"), None);
    assert_eq!(parse_config(b"font_type = Dot\n"), None);
    assert_eq!(parse_config(b"fonttype = \"Dot\"\n"), None);
    assert_eq!(parse_config(b"font_type = \"Ser"), None);
    assert_eq!(parse_config(b"font_type = \"Dot\" trailing"), None);
    assert_eq!(parse_config(b"font_type = \"Dot\"\nother = 1\n"), None);
    assert_eq!(parse_config(b"font_type = \"\"\n"), None);
}

#[test]
fn serialize_then_parse_round_trips() {
    for c in [dot(), serif()] {
        let bytes = serialize_config(&c);
        assert_eq!(parse_config(&bytes), Some(c));
    }
}

#[test]
fn load_always_yields_a_record() {
    let inputs: [Option<&[u8]>; 4] = [
        None,
        Some(b"font_type = \"Serif\"\n"),
        Some(b"font_type = \"Dot\"\n"),
        Some(b"not a record"),
    ];
    for contents in inputs {
        match resolve_load(contents) {
            LoadResolution::Parsed(c) => {
                assert!(c == dot() || c == serif());
            }
            LoadResolution::Fallback(_, c, _) => {
                assert_eq!(c, dot());
            }
        }
    }
}

#[test]
fn load_of_valid_file_parses_without_write() {
    match resolve_load(Some(b"font_type = \"Serif\"\n")) {
        LoadResolution::Parsed(c) => assert_eq!(c, serif()),
        LoadResolution::Fallback(_, _, _) => panic!("a valid record must not fall back"),
    }
}

#[test]
fn load_of_missing_file_falls_back_and_persists_default() {
    match resolve_load(None) {
        LoadResolution::Parsed(_) => panic!("a missing file must fall back"),
        LoadResolution::Fallback(reason, c, written) => {
            assert_eq!(reason, LoadFailure::ReadFailed);
            assert_eq!(c, dot());
            assert_eq!(written, serialize_config(&dot()));
            assert_eq!(parse_config(&written), Some(dot()));
        }
    }
}

#[test]
fn load_of_corrupt_file_falls_back_then_reloads_cleanly() {
    let written = match resolve_load(Some(b"font_type = 17\n")) {
        LoadResolution::Parsed(_) => panic!("a corrupt record must fall back"),
        LoadResolution::Fallback(reason, c, written) => {
            assert_eq!(reason, LoadFailure::ParseFailed);
            assert_eq!(c, dot());
            written
        }
    };
    match resolve_load(Some(&written)) {
        LoadResolution::Parsed(c) => assert_eq!(c, dot()),
        LoadResolution::Fallback(_, _, _) => panic!("the written default must parse"),
    }
}

#[test]
fn serialized_form_is_valid_toml() {
    let bytes = serialize_config(&serif());
    let text = String::from_utf8(bytes).unwrap();
    let table: toml::Table = toml::from_str(&text).unwrap();
    assert_eq!(table["font_type"].as_str(), Some("Serif"));
}

#[test]
fn parser_accepts_toml_crate_output() {
    for (c, name) in [(dot(), "Dot"), (serif(), "Serif")] {
        let mut table = toml::Table::new();
        table.insert("font_type".to_string(), toml::Value::String(name.to_string()));
        let text = toml::to_string(&table).unwrap();
        assert_eq!(parse_config(text.as_bytes()), Some(c));
    }
}
