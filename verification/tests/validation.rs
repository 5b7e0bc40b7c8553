use autoplate::{validate_configuration, Configuration, ParserError, Variable, VariableType};

fn empty_config(variables: Vec<Variable>) -> Configuration {
    Configuration {
        name: "demo".to_string(),
        description: "a demo".to_string(),
        version: "1.0".to_string(),
        pre_commands: vec![],
        environment: vec![],
        dependencies: vec![],
        variables,
        template_files: vec![],
        post_commands: vec![],
    }
}

fn variable(name: &str, var_type: VariableType, default: Option<&str>) -> Variable {
    Variable {
        name: name.to_string(),
        description: "a variable".to_string(),
        default: default.map(|d| d.to_string()),
        var_type,
        options: None,
        value: None,
    }
}

#[test]
fn boolean_default_true_accepted() {
    let config = empty_config(vec![variable("flag", VariableType::Boolean, Some("true"))]);
    assert!(validate_configuration(&config).is_ok());
}

#[test]
fn boolean_default_false_accepted() {
    let config = empty_config(vec![variable("flag", VariableType::Boolean, Some("false"))]);
    assert!(validate_configuration(&config).is_ok());
}

#[test]
fn boolean_default_other_rejected() {
    let config = empty_config(vec![variable("flag", VariableType::Boolean, Some("yes"))]);
    match validate_configuration(&config) {
        Err(ParserError::InvalidDefaultValue(name)) => assert_eq!(name, "flag"),
        _ => panic!("expected a rejected boolean default"),
    }
}

#[test]
fn select_default_in_options_accepted() {
    let mut var = variable("choice", VariableType::Select, Some("b"));
    var.options = Some(vec!["a".to_string(), "b".to_string()]);
    let config = empty_config(vec![var]);
    assert!(validate_configuration(&config).is_ok());
}

#[test]
fn select_default_not_in_options_rejected() {
    let mut var = variable("choice", VariableType::Select, Some("c"));
    var.options = Some(vec!["a".to_string(), "b".to_string()]);
    let config = empty_config(vec![var]);
    match validate_configuration(&config) {
        Err(ParserError::InvalidDefaultValue(name)) => assert_eq!(name, "choice"),
        _ => panic!("expected a rejected select default"),
    }
}

#[test]
fn select_default_without_options_rejected() {
    let config = empty_config(vec![variable("choice", VariableType::Select, Some("a"))]);
    match validate_configuration(&config) {
        Err(ParserError::InvalidDefaultValue(name)) => assert_eq!(name, "choice"),
        _ => panic!("expected a rejected select default"),
    }
}

#[test]
fn string_default_accepted() {
    let config = empty_config(vec![variable("text", VariableType::String, Some("anything at all"))]);
    assert!(validate_configuration(&config).is_ok());
}

#[test]
fn missing_defaults_accepted() {
    let config = empty_config(vec![
        variable("text", VariableType::String, None),
        variable("flag", VariableType::Boolean, None),
        variable("choice", VariableType::Select, None),
    ]);
    assert!(validate_configuration(&config).is_ok());
}

#[test]
fn first_offending_variable_reported() {
    let config = empty_config(vec![
        variable("good", VariableType::Boolean, Some("true")),
        variable("first_bad", VariableType::Boolean, Some("1")),
        variable("second_bad", VariableType::Boolean, Some("0")),
    ]);
    match validate_configuration(&config) {
        Err(ParserError::InvalidDefaultValue(name)) => assert_eq!(name, "first_bad"),
        _ => panic!("expected the first offending variable"),
    }
}
