use enman::binding::{
    find_project_version, parse_binding, parse_tool_version, rc_lines_value, rc_value, resolve_version,
    BindingScope, ConfigurationError,
};

#[test]
fn directory_marker_wins_over_project_and_global() {
    let r = resolve_version("node", Some("node@18.0.0\n"), Some("16.0.0".to_string()), Some("20.0.0")).unwrap();
    assert_eq!(r.version, "18.0.0");
    assert_eq!(r.scope, BindingScope::Directory);
    assert!(!r.tool_mismatch);
}

#[test]
fn project_file_wins_over_global() {
    let r = resolve_version("node", None, Some("16.0.0".to_string()), Some("20.0.0")).unwrap();
    assert_eq!(r.version, "16.0.0");
    assert_eq!(r.scope, BindingScope::Project);
}

#[test]
fn global_binding_is_the_last_resort() {
    let r = resolve_version("node", None, None, Some("  20.0.0 \n")).unwrap();
    assert_eq!(r.version, "20.0.0");
    assert_eq!(r.scope, BindingScope::Global);
}

#[test]
fn no_binding_is_a_configuration_error() {
    assert_eq!(resolve_version("node", None, None, None), Err(ConfigurationError::NoBinding));
    assert_eq!(
        resolve_version("node", None, None, Some("   \n")),
        Err(ConfigurationError::EmptyBinding(BindingScope::Global))
    );
    assert_eq!(
        resolve_version("node", Some(""), None, Some("1.0")),
        Err(ConfigurationError::EmptyBinding(BindingScope::Directory))
    );
}

#[test]
fn marker_naming_another_tool_still_gives_its_version() {
    let b = parse_binding("python@3.11.0", "node").unwrap();
    assert_eq!(b.version, "3.11.0");
    assert!(b.tool_mismatch);
    let b = parse_binding("\"18.1.0\"", "node").unwrap();
    assert_eq!(b.version, "18.1.0");
    assert!(!b.tool_mismatch);
}

#[test]
fn tool_version_token_is_split_at_the_first_at() {
    assert_eq!(parse_tool_version("node@16.14.0"), Ok(("node".to_string(), "16.14.0".to_string())));
    assert_eq!(parse_tool_version("a@b@c"), Ok(("a".to_string(), "b@c".to_string())));
    assert_eq!(
        parse_tool_version("node"),
        Err("Version must be specified with @, e.g., 'node@16.14.0'".to_string())
    );
    assert_eq!(parse_tool_version("@1.0"), Err("Tool name cannot be empty".to_string()));
    assert_eq!(parse_tool_version("node@"), Err("Version cannot be empty".to_string()));
}

#[test]
fn key_value_project_file_is_read_line_by_line() {
    let text = "# tools\n\nnode = \"18.2.0\"\r\npython=3.10.9\n";
    assert_eq!(rc_lines_value(text, "node"), Some("18.2.0".to_string()));
    assert_eq!(rc_lines_value(text, "python"), Some("3.10.9".to_string()));
    assert_eq!(rc_lines_value(text, "java"), None);
    assert_eq!(rc_lines_value("node = \"\"\n", "node"), None);
}

#[test]
fn toml_project_file_is_read_under_tools() {
    let text = "[tools]\npython = \"3.10.9\"\n";
    assert_eq!(rc_value(text, "python"), Some("3.10.9".to_string()));
    assert_eq!(rc_value(text, "node"), None);
    // Not TOML: read as key = value lines.
    assert_eq!(rc_value("node = 18 = 2\n", "node"), Some("18 = 2".to_string()));
}

#[test]
fn nearest_project_file_with_an_entry_wins() {
    let files = vec![
        None,
        Some("[tools]\njava = \"17\"\n".to_string()),
        Some("node = 14.0.0\n".to_string()),
        Some("node = 12.0.0\n".to_string()),
    ];
    assert_eq!(find_project_version("node", &files), Some("14.0.0".to_string()));
    assert_eq!(find_project_version("java", &files), Some("17".to_string()));
    assert_eq!(find_project_version("redis", &files), None);
}
