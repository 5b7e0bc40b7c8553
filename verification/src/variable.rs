use vstd::prelude::*;

verus! {

/// How a variable's textual default is interpreted and how the user is asked
/// for its value.
#[derive(Debug, PartialEq, Eq, Structural)]
pub enum VariableType {
    String,
    Boolean,
    Select,
}

impl Clone for VariableType {
    fn clone(&self) -> (r: Self)
        ensures
            r == *self,
    {
        match self {
            VariableType::String => VariableType::String,
            VariableType::Boolean => VariableType::Boolean,
            VariableType::Select => VariableType::Select,
        }
    }
}

/// A resolved variable value. Equality between values is structural and
/// type-sensitive: a `Boolean` never equals a `String`, even when their
/// textual forms would agree.
#[derive(Debug)]
pub enum VariableValue {
    String(String),
    Boolean(bool),
    Select(Vec<String>),
}

/// Mathematical model of a `VariableValue`.
pub enum ValueView {
    String(Seq<char>),
    Boolean(bool),
    Select(Seq<Seq<char>>),
}

impl View for VariableValue {
    type V = ValueView;

    open spec fn view(&self) -> ValueView {
        match self {
            VariableValue::String(s) => ValueView::String(s@),
            VariableValue::Boolean(b) => ValueView::Boolean(*b),
            VariableValue::Select(options) => ValueView::Select(options.deep_view()),
        }
    }
}

impl DeepView for VariableValue {
    type V = ValueView;

    open spec fn deep_view(&self) -> ValueView {
        self.view()
    }
}

/// Clones every string of a vector, preserving the sequence of contents.
pub fn clone_strings(v: &Vec<String>) -> (r: Vec<String>)
    ensures
        r.deep_view() == v.deep_view(),
{
    let mut r: Vec<String> = Vec::new();
    let mut i: usize = 0;
    while i < v.len()
        invariant
            i <= v.len(),
            r.len() == i,
            forall|j: int| 0 <= j < i ==> r.deep_view()[j] == v.deep_view()[j],
        decreases v.len() - i,
    {
        r.push(v[i].clone());
        i = i + 1;
    }
    assert(r.deep_view() =~= v.deep_view());
    r
}

impl Clone for VariableValue {
    fn clone(&self) -> (r: Self)
        ensures
            r@ == self@,
    {
        match self {
            VariableValue::String(s) => VariableValue::String(s.clone()),
            VariableValue::Boolean(b) => VariableValue::Boolean(*b),
            VariableValue::Select(options) => VariableValue::Select(clone_strings(options)),
        }
    }
}

/// Compares two string vectors by contents.
fn strings_equal(a: &Vec<String>, b: &Vec<String>) -> (r: bool)
    ensures
        r == (a.deep_view() == b.deep_view()),
{
    if a.len() != b.len() {
        assert(a.deep_view().len() != b.deep_view().len());
        return false;
    }
    let mut i: usize = 0;
    while i < a.len()
        invariant
            i <= a.len(),
            a.len() == b.len(),
            forall|j: int| 0 <= j < i ==> a.deep_view()[j] == b.deep_view()[j],
        decreases a.len() - i,
    {
        if a[i] != b[i] {
            assert(a.deep_view()[i as int] != b.deep_view()[i as int]);
            return false;
        }
        i = i + 1;
    }
    assert(a.deep_view() =~= b.deep_view());
    true
}

impl PartialEq for VariableValue {
    fn eq(&self, other: &Self) -> (r: bool) {
        match (self, other) {
            (VariableValue::String(a), VariableValue::String(b)) => *a == *b,
            (VariableValue::Boolean(a), VariableValue::Boolean(b)) => *a == *b,
            (VariableValue::Select(a), VariableValue::Select(b)) => strings_equal(a, b),
            _ => false,
        }
    }
}

impl vstd::std_specs::cmp::PartialEqSpecImpl for VariableValue {
    open spec fn obeys_eq_spec() -> bool {
        true
    }

    open spec fn eq_spec(&self, other: &Self) -> bool {
        self@ == other@
    }
}

/// A declared template variable together with its resolved value, when one
/// has been determined.
#[derive(Debug)]
pub struct Variable {
    pub name: String,
    pub description: String,
    pub default: Option<String>,
    pub var_type: VariableType,
    pub options: Option<Vec<String>>,
    pub value: Option<VariableValue>,
}

/// Mathematical model of a `Variable`.
pub struct VariableView {
    pub name: Seq<char>,
    pub description: Seq<char>,
    pub default: Option<Seq<char>>,
    pub var_type: VariableType,
    pub options: Option<Seq<Seq<char>>>,
    pub value: Option<ValueView>,
}

impl View for Variable {
    type V = VariableView;

    open spec fn view(&self) -> VariableView {
        VariableView {
            name: self.name@,
            description: self.description@,
            default: self.default.deep_view(),
            var_type: self.var_type,
            options: self.options.deep_view(),
            value: self.value.deep_view(),
        }
    }
}

impl DeepView for Variable {
    type V = VariableView;

    open spec fn deep_view(&self) -> VariableView {
        self.view()
    }
}

impl Clone for Variable {
    fn clone(&self) -> (r: Self)
        ensures
            r@ == self@,
    {
        let r = Variable {
            name: self.name.clone(),
            description: self.description.clone(),
            default: match &self.default {
                Some(d) => Some(d.clone()),
                None => None,
            },
            var_type: self.var_type.clone(),
            options: match &self.options {
                Some(options) => Some(clone_strings(options)),
                None => None,
            },
            value: match &self.value {
                Some(v) => Some(v.clone()),
                None => None,
            },
        };
        r
    }
}

} // verus!
