use autoplate::{
    prepare_command_string, replace_variables, UtilsError, Variable, VariableType, VariableValue,
};

fn resolved(name: &str, value: VariableValue) -> Variable {
    Variable {
        name: name.to_string(),
        description: "a variable".to_string(),
        default: None,
        var_type: match value {
            VariableValue::String(_) => VariableType::String,
            VariableValue::Boolean(_) => VariableType::Boolean,
            VariableValue::Select(_) => VariableType::Select,
        },
        options: None,
        value: Some(value),
    }
}

fn expect_ok(input: &str, variables: &Vec<Variable>, clean: bool) -> String {
    match replace_variables(input, variables, &clean) {
        Ok(s) => s,
        Err(_) => panic!("substitution unexpectedly failed"),
    }
}

fn expect_missing(input: &str, variables: &Vec<Variable>, clean: bool) -> String {
    match replace_variables(input, variables, &clean) {
        Err(UtilsError::VariableNotSet(name)) => name,
        _ => panic!("expected a variable-not-set failure"),
    }
}

#[test]
fn string_value_replaces_placeholder() {
    let vars = vec![resolved("name", VariableValue::String("x".to_string()))];
    assert_eq!(expect_ok("{{name}}", &vars, false), "x");
}

#[test]
fn escaped_value_is_shell_quoted() {
    let vars = vec![resolved("name", VariableValue::String("a b".to_string()))];
    assert_eq!(expect_ok("{{name}}", &vars, true), "'a b'");
}

#[test]
fn missing_variable_fails() {
    let vars: Vec<Variable> = vec![];
    assert_eq!(expect_missing("{{missing}}", &vars, false), "missing");
}

#[test]
fn declared_but_unresolved_variable_fails() {
    let mut var = resolved("name", VariableValue::String("x".to_string()));
    var.value = None;
    let vars = vec![var];
    assert_eq!(expect_missing("{{name}}", &vars, false), "name");
}

#[test]
fn literal_text_is_copied() {
    let vars: Vec<Variable> = vec![];
    assert_eq!(expect_ok("plain text, no tokens", &vars, false), "plain text, no tokens");
    assert_eq!(expect_ok("", &vars, false), "");
}

#[test]
fn unclosed_braces_are_copied_literally() {
    let vars: Vec<Variable> = vec![];
    assert_eq!(expect_ok("{{abc", &vars, false), "{{abc");
    assert_eq!(expect_ok("}}abc{{", &vars, false), "}}abc{{");
    assert_eq!(expect_ok("{lone}", &vars, false), "{lone}");
}

#[test]
fn surrounding_text_is_kept() {
    let vars = vec![resolved("name", VariableValue::String("x".to_string()))];
    assert_eq!(expect_ok("a{{name}}b", &vars, false), "axb");
}

#[test]
fn consecutive_placeholders_expand_in_order() {
    let vars = vec![
        resolved("a", VariableValue::String("1".to_string())),
        resolved("b", VariableValue::String("2".to_string())),
    ];
    assert_eq!(expect_ok("{{a}}{{b}}", &vars, false), "12");
}

#[test]
fn first_close_ends_the_token() {
    let vars = vec![resolved("a", VariableValue::String("x".to_string()))];
    assert_eq!(expect_ok("{{a}}}}", &vars, false), "x}}");
    assert_eq!(expect_ok("{{a}}}", &vars, false), "x}");
}

#[test]
fn token_name_runs_to_first_close() {
    let vars: Vec<Variable> = vec![];
    assert_eq!(expect_missing("{{{{a}}", &vars, false), "{{a");
}

#[test]
fn boolean_value_renders_textually() {
    let vars = vec![
        resolved("yes", VariableValue::Boolean(true)),
        resolved("no", VariableValue::Boolean(false)),
    ];
    assert_eq!(expect_ok("{{yes}}-{{no}}", &vars, false), "true-false");
}

#[test]
fn select_value_renders_first_option() {
    let vars = vec![resolved(
        "flavor",
        VariableValue::Select(vec!["sweet".to_string(), "sour".to_string()]),
    )];
    assert_eq!(expect_ok("{{flavor}}", &vars, false), "sweet");
}

#[test]
fn empty_select_fails() {
    let vars = vec![resolved("flavor", VariableValue::Select(vec![]))];
    assert_eq!(expect_missing("{{flavor}}", &vars, false), "flavor");
}

#[test]
fn multibyte_text_survives_substitution() {
    let vars = vec![resolved("name", VariableValue::String("höh".to_string()))];
    assert_eq!(expect_ok("ü{{name}}ü", &vars, false), "ühöhü");
}

#[test]
fn safe_value_is_not_quoted() {
    let vars = vec![resolved("name", VariableValue::String("a-b_c.1".to_string()))];
    assert_eq!(expect_ok("{{name}}", &vars, true), "a-b_c.1");
}

#[test]
fn quote_and_bang_are_spliced() {
    assert_eq!(prepare_command_string("a'b", &true), "'a'\\''b'");
    assert_eq!(prepare_command_string("a!b", &true), "'a'\\!'b'");
}

#[test]
fn empty_value_is_quoted() {
    assert_eq!(prepare_command_string("", &true), "''");
}

#[test]
fn preparing_without_escaping_keeps_the_text() {
    assert_eq!(prepare_command_string("a b 'c'", &false), "a b 'c'");
}

#[test]
fn escaping_mode_quotes_each_replacement_only() {
    let vars = vec![resolved("v", VariableValue::String("a b".to_string()))];
    assert_eq!(expect_ok("echo {{v}}", &vars, true), "echo 'a b'");
}
