use autoplate::{
    add_default_variables, gather_variables, prompt_bool_default, prompt_description,
    prompt_options, prompt_text_default, resolve_working_dir, Variable, VariableType,
    VariableValue,
};

fn declared(name: &str, var_type: VariableType, default: Option<&str>) -> Variable {
    Variable {
        name: name.to_string(),
        description: "a variable".to_string(),
        default: default.map(|d| d.to_string()),
        var_type,
        options: None,
        value: None,
    }
}

#[test]
fn default_variables_carry_the_working_dir() {
    let defaults = add_default_variables(Some("/tmp/project".to_string()));
    assert_eq!(defaults.len(), 1);
    assert_eq!(defaults[0].name, "working_dir");
    assert_eq!(defaults[0].default, Some("./".to_string()));
    assert!(matches!(defaults[0].var_type, VariableType::String));
    assert!(defaults[0].options.is_none());
    match &defaults[0].value {
        Some(VariableValue::String(s)) => assert_eq!(s, "/tmp/project"),
        _ => panic!("expected a resolved string value"),
    }
}

#[test]
fn default_variables_without_a_dir_stay_unresolved() {
    let defaults = add_default_variables(None);
    assert_eq!(defaults.len(), 1);
    assert!(defaults[0].value.is_none());
}

#[test]
fn gathering_keeps_explicit_values() {
    let mut var = declared("mode", VariableType::String, None);
    var.value = Some(VariableValue::String("fast".to_string()));
    let variables = vec![var];
    let answers = vec![Some(VariableValue::String("ignored".to_string()))];
    let resolved = gather_variables(&variables, vec![], &answers);
    assert_eq!(resolved.len(), 1);
    match &resolved[0].value {
        Some(VariableValue::String(s)) => assert_eq!(s, "fast"),
        _ => panic!("expected the explicit value to be kept"),
    }
}

#[test]
fn gathering_takes_answers_for_unresolved_variables() {
    let variables = vec![declared("flag", VariableType::Boolean, Some("false"))];
    let answers = vec![Some(VariableValue::Boolean(true))];
    let resolved = gather_variables(&variables, vec![], &answers);
    assert_eq!(resolved.len(), 1);
    assert_eq!(resolved[0].name, "flag");
    assert_eq!(resolved[0].default, Some("false".to_string()));
    match &resolved[0].value {
        Some(VariableValue::Boolean(b)) => assert!(*b),
        _ => panic!("expected the answer to be taken"),
    }
}

#[test]
fn gathering_puts_defaults_first() {
    let defaults = add_default_variables(Some(".".to_string()));
    let variables = vec![declared("flag", VariableType::Boolean, None)];
    let answers = vec![None, Some(VariableValue::Boolean(true))];
    let resolved = gather_variables(&variables, defaults, &answers);
    assert_eq!(resolved.len(), 2);
    assert_eq!(resolved[0].name, "working_dir");
    assert_eq!(resolved[1].name, "flag");
}

#[test]
fn working_dir_is_read_from_the_variables() {
    let defaults = add_default_variables(Some("/srv/app".to_string()));
    assert_eq!(resolve_working_dir(&defaults), Some("/srv/app".to_string()));
}

#[test]
fn missing_working_dir_yields_nothing() {
    let variables = vec![declared("other", VariableType::String, None)];
    assert_eq!(resolve_working_dir(&variables), None);
}

#[test]
fn non_string_working_dir_yields_nothing() {
    let mut var = declared("working_dir", VariableType::Boolean, None);
    var.value = Some(VariableValue::Boolean(true));
    let variables = vec![var];
    assert_eq!(resolve_working_dir(&variables), None);
}

#[test]
fn unresolved_working_dir_yields_nothing() {
    let variables = vec![declared("working_dir", VariableType::String, Some("./"))];
    assert_eq!(resolve_working_dir(&variables), None);
}

#[test]
fn description_without_default_is_bare() {
    let var = declared("mode", VariableType::String, None);
    assert_eq!(prompt_description(&var), "a variable");
}

#[test]
fn boolean_default_reads_yes_or_no() {
    let yes = declared("flag", VariableType::Boolean, Some("true"));
    assert_eq!(prompt_description(&yes), "a variable (default: yes)");
    let no = declared("flag", VariableType::Boolean, Some("false"));
    assert_eq!(prompt_description(&no), "a variable (default: no)");
}

#[test]
fn other_defaults_are_quoted() {
    let var = declared("mode", VariableType::String, Some("fast"));
    assert_eq!(prompt_description(&var), "a variable (default: \"fast\")");
}

#[test]
fn boolean_preselection_follows_the_default() {
    assert!(prompt_bool_default(&declared("flag", VariableType::Boolean, Some("true"))));
    assert!(!prompt_bool_default(&declared("flag", VariableType::Boolean, Some("false"))));
    assert!(!prompt_bool_default(&declared("flag", VariableType::Boolean, None)));
}

#[test]
fn text_prefill_is_the_default_or_empty() {
    assert_eq!(prompt_text_default(&declared("mode", VariableType::String, Some("fast"))), "fast");
    assert_eq!(prompt_text_default(&declared("mode", VariableType::String, None)), "");
}

#[test]
fn selection_choices_are_the_declared_options() {
    let mut var = declared("flavor", VariableType::Select, None);
    var.options = Some(vec!["sweet".to_string(), "sour".to_string()]);
    assert_eq!(prompt_options(&var), vec!["sweet".to_string(), "sour".to_string()]);
    let bare = declared("flavor", VariableType::Select, None);
    assert_eq!(prompt_options(&bare), Vec::<String>::new());
}
