use vstd::prelude::*;

use crate::variable::{ValueView, Variable, VariableType, VariableValue, VariableView};

verus! {

/// Index of the first variable whose name equals `name` exactly, scanning
/// from `from`.
pub open spec fn spec_find_var_exact_from(
    vars: Seq<VariableView>,
    name: Seq<char>,
    from: int,
) -> Option<int>
    decreases vars.len() - from,
{
    if from < 0 || from >= vars.len() {
        None
    } else if vars[from].name == name {
        Some(from)
    } else {
        spec_find_var_exact_from(vars, name, from + 1)
    }
}

/// Finds the first declared variable whose name equals `name` exactly.
fn find_variable_exact(variables: &Vec<Variable>, name: &String) -> (r: Option<usize>)
    ensures
        match r {
            Some(i) => i < variables.len() && spec_find_var_exact_from(
                variables.deep_view(),
                name@,
                0,
            ) == Some(i as int),
            None => spec_find_var_exact_from(variables.deep_view(), name@, 0) is None,
        },
{
    let ghost dv = variables.deep_view();
    let mut i: usize = 0;
    while i < variables.len()
        invariant
            i <= variables.len(),
            dv == variables.deep_view(),
            dv.len() == variables.len(),
            spec_find_var_exact_from(dv, name@, 0) == spec_find_var_exact_from(dv, name@, i as int),
        decreases variables.len() - i,
    {
        assert(dv[i as int] == variables[i as int]@);
        if variables[i].name == *name {
            return Some(i);
        }
        assert(spec_find_var_exact_from(dv, name@, i as int) == spec_find_var_exact_from(
            dv,
            name@,
            i as int + 1,
        ));
        i = i + 1;
    }
    None
}

/// The variable every run starts with: the working directory, defaulting
/// to the current directory, seeded with an explicitly supplied path when
/// one was given.
pub fn add_default_variables(working_dir: Option<String>) -> (r: Vec<Variable>)
    ensures
        r@.len() == 1,
        r@[0]@.name == "working_dir"@,
        r@[0]@.description == "The working directory in which commands will run by default"@,
        r@[0]@.default == Some("./"@),
        r@[0]@.var_type == VariableType::String,
        r@[0]@.options is None,
        r@[0]@.value == match working_dir {
            Some(dir) => Some(ValueView::String(dir@)),
            None => None::<ValueView>,
        },
{
    let working_dir_var = Variable {
        name: "working_dir".to_owned(),
        description: "The working directory in which commands will run by default".to_owned(),
        default: Some("./".to_owned()),
        var_type: VariableType::String,
        options: None,
        value: match working_dir {
            None => None,
            Some(value) => Some(VariableValue::String(value)),
        },
    };
    let mut r: Vec<Variable> = Vec::new();
    r.push(working_dir_var);
    r
}

/// A declaration completed with its resolved value: a declaration that
/// already carries a value keeps it, any other takes the answer collected
/// for it.
pub open spec fn spec_resolved_variable(src: VariableView, answer: Option<ValueView>) -> (
    VariableView) {
    VariableView {
        name: src.name,
        description: src.description,
        default: src.default,
        var_type: src.var_type,
        options: src.options,
        value: if src.value is Some {
            src.value
        } else {
            answer
        },
    }
}

/// Copies one declaration, completing it with `answer` when it carries no
/// value of its own.
fn resolve_one(variable: &Variable, answer: &Option<VariableValue>) -> (r: Variable)
    ensures
        r@ == spec_resolved_variable(variable@, answer.deep_view()),
{
    let value: Option<VariableValue> = match &variable.value {
        Some(v) => Some(v.clone()),
        None => match answer {
            Some(a) => Some(a.clone()),
            None => None,
        },
    };
    let mut resolved = variable.clone();
    resolved.value = value;
    resolved
}

/// Resolves every declared variable, the default declarations first and the
/// configuration's declarations after them, in order. Each slot keeps an
/// already-present value and otherwise takes the answer collected for it;
/// the declarations themselves are never changed.
pub fn gather_variables(
    variables: &Vec<Variable>,
    default_variables: Vec<Variable>,
    answers: &Vec<Option<VariableValue>>,
) -> (r: Vec<Variable>)
    requires
        answers@.len() == default_variables@.len() + variables@.len(),
    ensures
        r@.len() == answers@.len(),
        forall|i: int|
            0 <= i < default_variables@.len() ==> (#[trigger] r@[i])@ == spec_resolved_variable(
                default_variables@[i]@,
                answers.deep_view()[i],
            ),
        forall|i: int|
            default_variables@.len() <= i < answers@.len() ==> (#[trigger] r@[i])@
                == spec_resolved_variable(
                variables@[i - default_variables@.len()]@,
                answers.deep_view()[i],
            ),
{
    let d = default_variables.len();
    let total = answers.len();
    let mut r: Vec<Variable> = Vec::new();
    let mut i: usize = 0;
    while i < d
        invariant
            i <= d,
            d == default_variables@.len(),
            answers@.len() == d + variables@.len(),
            r@.len() == i,
            forall|k: int|
                0 <= k < i ==> (#[trigger] r@[k])@ == spec_resolved_variable(
                    default_variables@[k]@,
                    answers.deep_view()[k],
                ),
        decreases d - i,
    {
        assert(answers.deep_view()[i as int] == answers@[i as int].deep_view());
        r.push(resolve_one(&default_variables[i], &answers[i]));
        i = i + 1;
    }
    let mut j: usize = 0;
    while j < variables.len()
        invariant
            j <= variables@.len(),
            d == default_variables@.len(),
            total == answers@.len(),
            answers@.len() == d + variables@.len(),
            r@.len() == d + j,
            forall|k: int|
                0 <= k < d ==> (#[trigger] r@[k])@ == spec_resolved_variable(
                    default_variables@[k]@,
                    answers.deep_view()[k],
                ),
            forall|k: int|
                d <= k < d + j ==> (#[trigger] r@[k])@ == spec_resolved_variable(
                    variables@[k - d]@,
                    answers.deep_view()[k],
                ),
        decreases variables.len() - j,
    {
        assert(answers.deep_view()[d + j] == answers@[d + j].deep_view());
        assert(variables@[j as int]@ == variables.deep_view()[j as int]);
        r.push(resolve_one(&variables[j], &answers[d + j]));
        j = j + 1;
    }
    r
}

/// The working directory the resolved variables determine: the value of
/// the first variable named `working_dir`, provided it was resolved to a
/// string; anything else leaves the run without a usable directory.
pub open spec fn spec_working_dir_of(vars: Seq<VariableView>) -> Option<Seq<char>> {
    match spec_find_var_exact_from(vars, "working_dir"@, 0) {
        None => None,
        Some(i) => match vars[i].value {
            Some(ValueView::String(s)) => Some(s),
            _ => None,
        },
    }
}

/// Extracts the working directory from the resolved variables, if the
/// `working_dir` variable exists and was resolved to a string value.
pub fn resolve_working_dir(variables: &Vec<Variable>) -> (r: Option<String>)
    ensures
        match (r, spec_working_dir_of(variables.deep_view())) {
            (Some(s), Some(t)) => s@ == t,
            (None, None) => true,
            _ => false,
        },
{
    let wanted = "working_dir".to_owned();
    match find_variable_exact(variables, &wanted) {
        None => None,
        Some(i) => {
            assert(variables.deep_view()[i as int] == variables@[i as int]@);
            match &variables[i].value {
                Some(VariableValue::String(s)) => Some(s.clone()),
                _ => None,
            }
        },
    }
}

} // verus!
