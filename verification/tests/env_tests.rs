use oneword::env::{env_var, env_var_parse, has_env, Environment};

fn env(vars: &[(&str, &str)]) -> Environment {
    Environment { vars: vars.iter().map(|(k, v)| (k.to_string(), v.to_string())).collect() }
}

#[test]
fn has_env_needs_a_non_empty_value() {
    let e = env(&[("A", "1"), ("B", "")]);
    assert!(has_env(&e, "A"));
    assert!(!has_env(&e, "B"));
    assert!(!has_env(&e, "C"));
}

#[test]
fn env_var_reads_the_value() {
    let e = env(&[("A", "1"), ("B", "")]);
    assert_eq!(env_var(&e, "A"), Ok("1".to_string()));
    assert_eq!(env_var(&e, "B"), Ok("".to_string()));
}

#[test]
fn env_var_reports_a_missing_variable() {
    let e = env(&[("A", "1")]);
    assert_eq!(env_var(&e, "OAUTH_URL_BASE"), Err("Missing OAUTH_URL_BASE".to_string()));
}

#[test]
fn set_variable_is_readable() {
    let e = env(&[("X", "v")]);
    assert!(has_env(&e, "X"));
    assert!(env_var(&e, "X").is_ok());
}

fn parse_port(s: String) -> Result<u16, String> {
    s.parse::<u16>().map_err(|e| e.to_string())
}

#[test]
fn env_var_parse_reads_numbers() {
    let e = env(&[("PORT", "8080")]);
    assert_eq!(env_var_parse(&e, "PORT", parse_port), Ok(8080u16));
}

#[test]
fn env_var_parse_reports_an_invalid_value() {
    let e = env(&[("PORT", "abc"), ("EMPTY", "")]);
    assert_eq!(env_var_parse(&e, "PORT", parse_port), Err("Invalid PORT: invalid digit found in string".to_string()));
    assert_eq!(env_var_parse(&e, "EMPTY", parse_port),
        Err("Invalid EMPTY: cannot parse integer from empty string".to_string()));
}

#[test]
fn env_var_parse_reports_a_missing_variable() {
    let e = env(&[]);
    assert_eq!(env_var_parse(&e, "PORT", parse_port), Err("Missing PORT".to_string()));
}
