use ctp::config::{get_commands, get_lang_location, CommandVariants, ConfigEntry, ConfigValue, TomlError};

fn table(entries: Vec<(&str, ConfigValue)>) -> ConfigValue {
    ConfigValue::Table(
        entries
            .into_iter()
            .map(|(k, v)| ConfigEntry { key: k.to_string(), value: v })
            .collect(),
    )
}

fn text(s: &str) -> ConfigValue {
    ConfigValue::Str(s.to_string())
}

fn strings(items: &[&str]) -> ConfigValue {
    ConfigValue::Array(items.iter().map(|s| text(s)).collect())
}

fn to_config(value: toml::Value) -> ConfigValue {
    match value {
        toml::Value::String(s) => ConfigValue::Str(s),
        toml::Value::Integer(i) => ConfigValue::Integer(i),
        toml::Value::Boolean(b) => ConfigValue::Boolean(b),
        toml::Value::Array(items) => ConfigValue::Array(items.into_iter().map(to_config).collect()),
        toml::Value::Table(t) => ConfigValue::Table(
            t.into_iter().map(|(key, value)| ConfigEntry { key, value: to_config(value) }).collect(),
        ),
        toml::Value::Float(_) | toml::Value::Datetime(_) => ConfigValue::Other,
    }
}

fn parse(text: &str) -> ConfigValue {
    to_config(toml::from_str(text).unwrap())
}

#[test]
fn test_get_lang_location() {
    let missing_lang = r#"
    [templates]

    [commands-before]

    [commands-after]

  "#;

    let missing_lang_toml_value = parse(missing_lang);
    let missing_lang_location = get_lang_location(&missing_lang_toml_value, "rust");

    if let Err(e @ TomlError::LanguageNotFound(..)) = missing_lang_location {
        assert_eq!(
            e.to_string(),
            "The language \"rust\" could not be found in your config.".to_string()
        )
    } else {
        println!("{}", missing_lang_location.unwrap());
        panic!("Location given");
    }
}

#[test]
fn test_missing_templates() {
    let missing_lang = r#"
    [template]

    [commands-before]

    [commands-after]

  "#;

    let missing_templates = parse(missing_lang);
    let missing_templates_output = get_lang_location(&missing_templates, "rust");

    match missing_templates_output {
        Err(e) => assert_eq!(
            e.to_string(),
            "\"templates\" section could not be found in your config. Add it with [templates]"
                .to_string()
        ),
        Ok(_) => unreachable!(),
    }
}

#[test]
fn test_invalid_type() {
    let missing_lang = r#"
    [templates]
    rust = 5

    [commands-before]
    [commands-after]
  "#;

    let invalid_type = parse(missing_lang);
    let invalid_type_output = get_lang_location(&invalid_type, "rust");

    if let Err(e @ TomlError::InvalidType(..)) = invalid_type_output {
        assert_eq!(
            e.to_string(),
            "The value of \"rust\" is an invalid type, expected String".to_string()
        )
    } else {
        panic!("expected an invalid-type error");
    }
}

#[test]
fn location_is_returned_verbatim() {
    let doc = table(vec![("templates", table(vec![("python", text("./tpl/py"))]))]);
    assert_eq!(get_lang_location(&doc, "python").unwrap(), "./tpl/py");
}

#[test]
fn first_of_two_equal_keys_wins() {
    let doc = table(vec![(
        "templates",
        table(vec![("go", text("./first")), ("go", text("./second"))]),
    )]);
    assert_eq!(get_lang_location(&doc, "go").unwrap(), "./first");
}

#[test]
fn root_that_is_not_a_table_is_refused() {
    match get_lang_location(&text("templates"), "rust") {
        Err(TomlError::SectionNotFound(name)) => assert_eq!(name, "root"),
        _ => panic!("expected a missing root section"),
    }
    match get_commands(&ConfigValue::Other, "rust", CommandVariants::Before) {
        Err(TomlError::SectionNotFound(name)) => assert_eq!(name, "root"),
        _ => panic!("expected a missing root section"),
    }
}

#[test]
fn templates_that_is_not_a_table_is_a_missing_section() {
    let doc = table(vec![("templates", text("./tpl"))]);
    match get_lang_location(&doc, "rust") {
        Err(e @ TomlError::SectionNotFound(_)) => assert_eq!(
            e.to_string(),
            "\"templates\" section could not be found in your config. Add it with [templates]"
        ),
        _ => panic!("expected a missing templates section"),
    }
}

#[test]
fn missing_templates_is_an_error_for_commands_too() {
    let doc = parse("[template]\n[commands-after]\nrust = [\"make\"]\n");
    match get_commands(&doc, "rust", CommandVariants::After) {
        Err(TomlError::SectionNotFound(name)) => assert_eq!(name, "templates"),
        _ => panic!("expected a missing templates section"),
    }
}

#[test]
fn missing_command_section_gives_no_commands() {
    let doc = table(vec![("templates", table(vec![("rust", text("./tpl/rs"))]))]);
    assert!(get_commands(&doc, "rust", CommandVariants::Before).unwrap().is_none());
    assert!(get_commands(&doc, "rust", CommandVariants::After).unwrap().is_none());
}

#[test]
fn missing_language_in_command_section_gives_no_commands() {
    let doc = table(vec![
        ("templates", table(vec![("rust", text("./tpl/rs"))])),
        ("commands-before", table(vec![("go", strings(&["go mod init"]))])),
    ]);
    assert!(get_commands(&doc, "rust", CommandVariants::Before).unwrap().is_none());
}

#[test]
fn malformed_command_list_gives_no_commands() {
    let doc = table(vec![
        ("templates", table(vec![])),
        (
            "commands-after",
            table(vec![
                ("rust", ConfigValue::Array(vec![text("cargo build"), ConfigValue::Integer(3)])),
                ("go", text("go build")),
            ]),
        ),
    ]);
    assert!(get_commands(&doc, "rust", CommandVariants::After).unwrap().is_none());
    assert!(get_commands(&doc, "go", CommandVariants::After).unwrap().is_none());
}

#[test]
fn command_lists_are_read_per_phase() {
    let doc = table(vec![
        ("templates", table(vec![])),
        ("commands-before", table(vec![("rust", strings(&["echo one"]))])),
        ("commands-after", table(vec![("rust", strings(&["git init", "cargo build"]))])),
        ("extra", ConfigValue::Boolean(true)),
    ]);
    assert_eq!(
        get_commands(&doc, "rust", CommandVariants::Before).unwrap(),
        Some(vec!["echo one".to_string()])
    );
    assert_eq!(
        get_commands(&doc, "rust", CommandVariants::After).unwrap(),
        Some(vec!["git init".to_string(), "cargo build".to_string()])
    );
}

#[test]
fn empty_command_list_is_kept() {
    let doc = table(vec![
        ("templates", table(vec![])),
        ("commands-after", table(vec![("rust", strings(&[]))])),
    ]);
    assert_eq!(get_commands(&doc, "rust", CommandVariants::After).unwrap(), Some(vec![]));
}

#[test]
fn parsed_document_scenario() {
    let doc = parse(
        "[templates]\npython = \"./tpl/py\"\n\n[commands-after]\npython = [\"echo {{__NAME__}}\"]\n",
    );
    assert_eq!(get_lang_location(&doc, "python").unwrap(), "./tpl/py");
    assert!(get_commands(&doc, "python", CommandVariants::Before).unwrap().is_none());
    assert_eq!(
        get_commands(&doc, "python", CommandVariants::After).unwrap(),
        Some(vec!["echo {{__NAME__}}".to_string()])
    );
}

#[test]
fn variant_section_names() {
    assert_eq!(CommandVariants::Before.to_string(), "commands-before");
    assert_eq!(CommandVariants::After.to_string(), "commands-after");
}
