use vstd::prelude::*;

use crate::errors::ParserError;
use crate::variable::{ValueView, Variable, VariableValue, VariableView};

verus! {

/// The comparison a condition applies between the referenced variable's
/// resolved value and the condition's declared value.
#[derive(Debug, PartialEq, Eq, Structural)]
pub enum ConditionOperator {
    Equals,
}

impl Clone for ConditionOperator {
    fn clone(&self) -> (r: Self)
        ensures
            r == *self,
    {
        match self {
            ConditionOperator::Equals => ConditionOperator::Equals,
        }
    }
}

/// A single requirement on a resolved variable: the variable named
/// `variable` (matched case-insensitively) must relate to `value` under
/// `operator`.
#[derive(Debug)]
pub struct Condition {
    pub variable: String,
    pub operator: ConditionOperator,
    pub value: VariableValue,
}

/// Mathematical model of a `Condition`.
pub struct ConditionView {
    pub variable: Seq<char>,
    pub operator: ConditionOperator,
    pub value: ValueView,
}

impl View for Condition {
    type V = ConditionView;

    open spec fn view(&self) -> ConditionView {
        ConditionView { variable: self.variable@, operator: self.operator, value: self.value@ }
    }
}

impl DeepView for Condition {
    type V = ConditionView;

    open spec fn deep_view(&self) -> ConditionView {
        self.view()
    }
}

/// The lower-cased form of a sequence of characters, as `str::to_lowercase`
/// computes it.
pub uninterp spec fn lower_of(s: Seq<char>) -> Seq<char>;

/// Relies on `str::to_lowercase`: its result is a function of the input
/// characters alone.
#[verifier::external_body]
fn lowercase(s: &str) -> (r: String)
    ensures
        r@ == lower_of(s@),
{
    s.to_lowercase()
}

/// Index of the first variable whose lower-cased name equals the
/// lower-cased `name`, scanning from `from`.
pub open spec fn spec_find_var_from(
    vars: Seq<VariableView>,
    name: Seq<char>,
    from: int,
) -> Option<int>
    decreases vars.len() - from,
{
    if from < 0 || from >= vars.len() {
        None
    } else if lower_of(vars[from].name) == lower_of(name) {
        Some(from)
    } else {
        spec_find_var_from(vars, name, from + 1)
    }
}

/// Index of the first variable matching `name` case-insensitively.
pub open spec fn spec_find_var(vars: Seq<VariableView>, name: Seq<char>) -> Option<int> {
    spec_find_var_from(vars, name, 0)
}

/// Whether the resolved variable `v` satisfies the condition `c`: under
/// `Equals`, the variable must have a resolved value structurally equal to
/// the condition's declared value. A variable with no resolved value never
/// matches.
pub open spec fn condition_matches(v: VariableView, c: ConditionView) -> bool {
    match c.operator {
        ConditionOperator::Equals => match v.value {
            Some(value) => value == c.value,
            None => false,
        },
    }
}

/// Outcome of evaluating the conditions `cs[from..]` in order: the name of
/// the first condition whose variable is not declared, or else `Ok(true)`
/// as soon as one condition matches, or `Ok(false)` when none does.
pub open spec fn spec_eval_conditions_from(
    cs: Seq<ConditionView>,
    vars: Seq<VariableView>,
    from: int,
) -> Result<bool, Seq<char>>
    decreases cs.len() - from,
{
    if from < 0 || from >= cs.len() {
        Ok(false)
    } else {
        match spec_find_var(vars, cs[from].variable) {
            None => Err(cs[from].variable),
            Some(i) => if condition_matches(vars[i], cs[from]) {
                Ok(true)
            } else {
                spec_eval_conditions_from(cs, vars, from + 1)
            },
        }
    }
}

/// Outcome of evaluating a whole condition list (disjunctive: one matching
/// condition suffices).
pub open spec fn spec_eval_conditions(
    cs: Seq<ConditionView>,
    vars: Seq<VariableView>,
) -> Result<bool, Seq<char>> {
    spec_eval_conditions_from(cs, vars, 0)
}

/// Applicability of an optional condition list: a step without a list at
/// all applies unconditionally, while a step with a list applies only when
/// the disjunctive evaluation allows it — so a step with an explicitly
/// empty list never applies.
pub open spec fn spec_applicable(
    conditions: Option<Seq<ConditionView>>,
    vars: Seq<VariableView>,
) -> Result<bool, Seq<char>> {
    match conditions {
        None => Ok(true),
        Some(cs) => spec_eval_conditions(cs, vars),
    }
}

/// A step with no condition list at all is applicable unconditionally,
/// while a step with an explicitly empty condition list is never
/// applicable: the two cases are deliberately asymmetric.
pub proof fn lemma_conditions_asymmetry(vars: Seq<VariableView>)
    ensures
        spec_applicable(None, vars) == Ok::<bool, Seq<char>>(true),
        spec_applicable(Some(Seq::empty()), vars) == Ok::<bool, Seq<char>>(false),
{
}

/// Finds the first declared variable whose name equals `name`
/// case-insensitively.
fn find_variable_ci(variables: &Vec<Variable>, name: &str) -> (r: Option<usize>)
    ensures
        match r {
            Some(i) => i < variables.len() && spec_find_var(variables.deep_view(), name@) == Some(
                i as int,
            ),
            None => spec_find_var(variables.deep_view(), name@) is None,
        },
{
    let wanted = lowercase(name);
    let ghost dv = variables.deep_view();
    let mut i: usize = 0;
    while i < variables.len()
        invariant
            i <= variables.len(),
            dv == variables.deep_view(),
            wanted@ == lower_of(name@),
            dv.len() == variables.len(),
            spec_find_var(dv, name@) == spec_find_var_from(dv, name@, i as int),
        decreases variables.len() - i,
    {
        assert(dv[i as int] == variables[i as int]@);
        if lowercase(variables[i].name.as_str()) == wanted {
            return Some(i);
        }
        assert(spec_find_var_from(dv, name@, i as int) == spec_find_var_from(
            dv,
            name@,
            i as int + 1,
        ));
        i = i + 1;
    }
    None
}

/// Evaluates an optional condition list against the resolved variables.
///
/// With no list at all, or with a list in which no condition matches, the
/// answer is `Ok(false)`; the first condition referencing an undeclared
/// variable name makes the whole evaluation fail with that name.
pub fn has_applicable_conditions(
    conditions: Option<&Vec<Condition>>,
    variables: &Vec<Variable>,
) -> (r: Result<bool, ParserError>)
    ensures
        match conditions {
            None => r matches Ok(b) && b == false,
            Some(cs) => match spec_eval_conditions(cs.deep_view(), variables.deep_view()) {
                Ok(b) => r matches Ok(rb) && rb == b,
                Err(name) => r matches Err(ParserError::VariableDoesNotExist(n)) && n@ == name,
            },
        },
{
    let cs = match conditions {
        None => {
            return Ok(false);
        },
        Some(cs) => cs,
    };
    let ghost cv = cs.deep_view();
    let ghost dv = variables.deep_view();
    let mut i: usize = 0;
    while i < cs.len()
        invariant
            i <= cs.len(),
            conditions matches Some(c) && c.deep_view() == cv,
            cv == cs.deep_view(),
            dv == variables.deep_view(),
            cv.len() == cs.len(),
            spec_eval_conditions(cv, dv) == spec_eval_conditions_from(cv, dv, i as int),
        decreases cs.len() - i,
    {
        let condition = &cs[i];
        assert(cv[i as int] == condition@);
        match find_variable_ci(variables, condition.variable.as_str()) {
            None => {
                return Err(ParserError::VariableDoesNotExist(condition.variable.clone()));
            },
            Some(vi) => {
                assert(dv[vi as int] == variables[vi as int]@);
                let matched = match (&variables[vi].value, &condition.value) {
                    (Some(value), wanted) => *value == *wanted,
                    (None, _) => false,
                };
                assert(matched == condition_matches(dv[vi as int], cv[i as int]));
                if matched {
                    return Ok(true);
                }
            },
        }
        i = i + 1;
    }
    Ok(false)
}

/// Variable lookup for conditions is case-insensitive: two names with the
/// same lower-cased form select the same variable, whatever their casing.
pub proof fn lemma_lookup_case_insensitive(
    vars: Seq<VariableView>,
    name1: Seq<char>,
    name2: Seq<char>,
    from: int,
)
    requires
        lower_of(name1) == lower_of(name2),
    ensures
        spec_find_var_from(vars, name1, from) == spec_find_var_from(vars, name2, from),
    decreases vars.len() - from,
{
    if 0 <= from < vars.len() {
        lemma_lookup_case_insensitive(vars, name1, name2, from + 1);
    }
}

/// Value equality is type-sensitive: a variable resolved to a `Boolean`
/// never satisfies a condition whose declared value is a `String`, even
/// when their textual forms agree.
pub proof fn lemma_boolean_never_matches_string(
    v: VariableView,
    c: ConditionView,
    b: bool,
    s: Seq<char>,
)
    requires
        v.value == Some(ValueView::Boolean(b)),
        c.value == ValueView::String(s),
    ensures
        !condition_matches(v, c),
{
}

} // verus!
