use sharedserver::start::parse_env_vars;

#[test]
fn test_parse_env_vars_valid() {
    let env_vars = vec![
        "KEY1=value1".to_string(),
        "PATH=/usr/bin".to_string(),
        "WORKSPACE_MCP_PORT=8002".to_string(),
    ];

    let result = parse_env_vars(&env_vars).unwrap();
    assert_eq!(result[0], ("KEY1".to_string(), "value1".to_string()));
    assert_eq!(result[1], ("PATH".to_string(), "/usr/bin".to_string()));
    assert_eq!(
        result[2],
        ("WORKSPACE_MCP_PORT".to_string(), "8002".to_string())
    );
}

#[test]
fn test_parse_env_vars_with_equals_in_value() {
    let env_vars = vec!["URL=https://example.com?key=value".to_string()];

    let result = parse_env_vars(&env_vars).unwrap();
    assert_eq!(
        result[0],
        ("URL".to_string(), "https://example.com?key=value".to_string())
    );
}

#[test]
fn test_parse_env_vars_empty_value() {
    let env_vars = vec!["EMPTY=".to_string()];

    let result = parse_env_vars(&env_vars).unwrap();
    assert_eq!(result[0], ("EMPTY".to_string(), "".to_string()));
}

#[test]
fn test_parse_env_vars_invalid_no_equals() {
    let env_vars = vec!["INVALID_NO_EQUALS".to_string()];

    let result = parse_env_vars(&env_vars);
    assert!(result.is_err());
    assert!(result
        .unwrap_err()
        .message()
        .contains("Invalid environment variable format"));
}

#[test]
fn test_parse_env_vars_invalid_empty_key() {
    let env_vars = vec!["=value".to_string()];

    let result = parse_env_vars(&env_vars).unwrap();
    // An empty key is allowed by the first-equals split: the key is "".
    assert_eq!(result[0], ("".to_string(), "value".to_string()));
}
