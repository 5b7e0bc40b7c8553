use autoplate::{
    has_applicable_conditions, Condition, ConditionOperator, Dependency, ParserError, Variable,
    VariableType, VariableValue,
};

fn resolved(name: &str, value: VariableValue) -> Variable {
    Variable {
        name: name.to_string(),
        description: "a variable".to_string(),
        default: None,
        var_type: match value {
            VariableValue::String(_) => VariableType::String,
            VariableValue::Boolean(_) => VariableType::Boolean,
            VariableValue::Select(_) => VariableType::Select,
        },
        options: None,
        value: Some(value),
    }
}

fn equals(variable: &str, value: VariableValue) -> Condition {
    Condition {
        variable: variable.to_string(),
        operator: ConditionOperator::Equals,
        value,
    }
}

#[test]
fn lookup_is_case_insensitive() {
    let vars = vec![resolved("feature", VariableValue::Boolean(true))];
    let conditions = vec![equals("Feature", VariableValue::Boolean(true))];
    assert!(matches!(has_applicable_conditions(Some(&conditions), &vars), Ok(true)));
}

#[test]
fn unknown_variable_fails_lookup() {
    let vars = vec![resolved("feature", VariableValue::Boolean(true))];
    let conditions = vec![equals("missing", VariableValue::Boolean(true))];
    match has_applicable_conditions(Some(&conditions), &vars) {
        Err(ParserError::VariableDoesNotExist(name)) => assert_eq!(name, "missing"),
        _ => panic!("expected an unknown-variable failure"),
    }
}

#[test]
fn boolean_variable_never_equals_string_value() {
    let vars = vec![resolved("feature", VariableValue::Boolean(true))];
    let conditions = vec![equals("feature", VariableValue::String("true".to_string()))];
    assert!(matches!(has_applicable_conditions(Some(&conditions), &vars), Ok(false)));
}

#[test]
fn absent_conditions_evaluate_to_false() {
    let vars = vec![resolved("feature", VariableValue::Boolean(true))];
    assert!(matches!(has_applicable_conditions(None, &vars), Ok(false)));
}

#[test]
fn empty_conditions_evaluate_to_false() {
    let vars = vec![resolved("feature", VariableValue::Boolean(true))];
    let conditions: Vec<Condition> = vec![];
    assert!(matches!(has_applicable_conditions(Some(&conditions), &vars), Ok(false)));
}

#[test]
fn string_values_match_textually() {
    let vars = vec![resolved("mode", VariableValue::String("fast".to_string()))];
    let conditions = vec![equals("mode", VariableValue::String("fast".to_string()))];
    assert!(matches!(has_applicable_conditions(Some(&conditions), &vars), Ok(true)));
}

#[test]
fn select_values_match_structurally() {
    let vars = vec![resolved(
        "flavor",
        VariableValue::Select(vec!["sweet".to_string()]),
    )];
    let matching = vec![equals("flavor", VariableValue::Select(vec!["sweet".to_string()]))];
    assert!(matches!(has_applicable_conditions(Some(&matching), &vars), Ok(true)));
    let differing = vec![equals("flavor", VariableValue::Select(vec!["sour".to_string()]))];
    assert!(matches!(has_applicable_conditions(Some(&differing), &vars), Ok(false)));
}

#[test]
fn one_matching_condition_suffices() {
    let vars = vec![resolved("mode", VariableValue::String("fast".to_string()))];
    let conditions = vec![
        equals("mode", VariableValue::String("slow".to_string())),
        equals("mode", VariableValue::String("fast".to_string())),
    ];
    assert!(matches!(has_applicable_conditions(Some(&conditions), &vars), Ok(true)));
}

#[test]
fn unresolved_variable_never_matches() {
    let mut var = resolved("mode", VariableValue::String("fast".to_string()));
    var.value = None;
    let vars = vec![var];
    let conditions = vec![equals("mode", VariableValue::String("fast".to_string()))];
    assert!(matches!(has_applicable_conditions(Some(&conditions), &vars), Ok(false)));
}

#[test]
fn dependency_without_when_is_applicable() {
    let dep = Dependency {
        name: "dep".to_string(),
        command: "echo on".to_string(),
        when: None,
    };
    let vars: Vec<Variable> = vec![];
    assert_eq!(dep.is_applicable(&vars), Ok(true));
}

#[test]
fn dependency_with_empty_when_is_never_applicable() {
    let dep = Dependency {
        name: "dep".to_string(),
        command: "echo on".to_string(),
        when: Some(vec![]),
    };
    let vars: Vec<Variable> = vec![];
    assert_eq!(dep.is_applicable(&vars), Ok(false));
}

#[test]
fn dependency_applies_when_any_condition_holds() {
    let dep = Dependency {
        name: "dep".to_string(),
        command: "echo on".to_string(),
        when: Some(vec![
            equals("mode", VariableValue::String("slow".to_string())),
            equals("mode", VariableValue::String("fast".to_string())),
        ]),
    };
    let vars = vec![resolved("mode", VariableValue::String("fast".to_string()))];
    assert_eq!(dep.is_applicable(&vars), Ok(true));
    let neither = Dependency {
        name: "dep".to_string(),
        command: "echo on".to_string(),
        when: Some(vec![
            equals("mode", VariableValue::String("slow".to_string())),
            equals("mode", VariableValue::String("steady".to_string())),
        ]),
    };
    assert_eq!(neither.is_applicable(&vars), Ok(false));
}

#[test]
fn dependency_lookup_is_case_insensitive() {
    let dep = Dependency {
        name: "dep".to_string(),
        command: "echo on".to_string(),
        when: Some(vec![equals("Feature", VariableValue::Boolean(true))]),
    };
    let vars = vec![resolved("feature", VariableValue::Boolean(true))];
    assert_eq!(dep.is_applicable(&vars), Ok(true));
}

#[test]
fn dependency_reports_undeclared_condition_variables() {
    let dep = Dependency {
        name: "dep".to_string(),
        command: "echo on".to_string(),
        when: Some(vec![equals("missing", VariableValue::Boolean(true))]),
    };
    let vars = vec![resolved("feature", VariableValue::Boolean(true))];
    assert_eq!(dep.is_applicable(&vars), Err("missing".to_string()));
}
