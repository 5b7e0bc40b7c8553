use vstd::prelude::*;

use crate::condition::{
    has_applicable_conditions, spec_applicable, Condition, ConditionView,
};
use crate::errors::ParserError;
use crate::variable::{Variable, VariableView};

verus! {

/// A named shell command template, optionally guarded by conditions.
#[derive(Debug)]
pub struct Command {
    pub name: String,
    pub command: String,
    pub conditions: Option<Vec<Condition>>,
}

/// Mathematical model of a `Command`.
pub struct CommandView {
    pub name: Seq<char>,
    pub command: Seq<char>,
    pub conditions: Option<Seq<ConditionView>>,
}

impl View for Command {
    type V = CommandView;

    open spec fn view(&self) -> CommandView {
        CommandView {
            name: self.name@,
            command: self.command@,
            conditions: self.conditions.deep_view(),
        }
    }
}

impl DeepView for Command {
    type V = CommandView;

    open spec fn deep_view(&self) -> CommandView {
        self.view()
    }
}

/// A dependency: a named shell command template that only applies when its
/// `when` conditions allow it.
#[derive(Debug)]
pub struct Dependency {
    pub name: String,
    pub command: String,
    pub when: Option<Vec<Condition>>,
}

/// Mathematical model of a `Dependency`.
pub struct DependencyView {
    pub name: Seq<char>,
    pub command: Seq<char>,
    pub when: Option<Seq<ConditionView>>,
}

impl View for Dependency {
    type V = DependencyView;

    open spec fn view(&self) -> DependencyView {
        DependencyView {
            name: self.name@,
            command: self.command@,
            when: self.when.deep_view(),
        }
    }
}

impl DeepView for Dependency {
    type V = DependencyView;

    open spec fn deep_view(&self) -> DependencyView {
        self.view()
    }
}

impl Dependency {
    /// Decides whether this dependency applies: with no `when` list it
    /// applies unconditionally, while a present list is evaluated
    /// disjunctively against the resolved variables, matching variable
    /// names case-insensitively — so an explicitly empty list never
    /// applies. On a condition referencing an undeclared variable, fails
    /// with that name.
    pub fn is_applicable(&self, variables: &Vec<Variable>) -> (r: Result<bool, String>)
        ensures
            match (r, spec_applicable(self@.when, variables.deep_view())) {
                (Ok(b1), Ok(b2)) => b1 == b2,
                (Err(m), Err(name)) => m@ == name,
                _ => false,
            },
    {
        match &self.when {
            None => Ok(true),
            Some(cs) => match has_applicable_conditions(Some(cs), variables) {
                Ok(applicable) => Ok(applicable),
                Err(e) => match e {
                    ParserError::VariableDoesNotExist(name) => Err(name),
                    ParserError::InvalidDefaultValue(name) => Err(name),
                },
            },
        }
    }
}

/// What every runnable step (plain command or dependency) exposes to the
/// executor.
pub trait CommandTrait {
    /// The step's display name.
    spec fn spec_name(&self) -> Seq<char>;

    /// The step's command template.
    spec fn spec_command(&self) -> Seq<char>;

    /// The step's own applicability judgement.
    spec fn spec_is_applicable(&self, vars: Seq<VariableView>) -> Result<bool, Seq<char>>;

    fn command(&self) -> (r: &str)
        ensures
            r@ == self.spec_command(),
    ;

    fn name(&self) -> (r: &str)
        ensures
            r@ == self.spec_name(),
    ;

    fn is_applicable(&self, variables: &Vec<Variable>) -> (r: Result<bool, String>)
        ensures
            match (r, self.spec_is_applicable(variables.deep_view())) {
                (Ok(b1), Ok(b2)) => b1 == b2,
                (Err(m), Err(name)) => m@ == name,
                _ => false,
            },
    ;
}

/// Access to the optional condition list guarding a runnable step.
pub trait ConditionTrait {
    /// The model of the step's condition list, when it has one.
    spec fn spec_conditions(&self) -> Option<Seq<ConditionView>>;

    fn get_conditions(&self) -> (r: Option<&Vec<Condition>>)
        ensures
            match (r, self.spec_conditions()) {
                (Some(s), Some(cs)) => s.deep_view() == cs,
                (None, None) => true,
                _ => false,
            },
    ;
}

impl CommandTrait for Command {
    open spec fn spec_name(&self) -> Seq<char> {
        self@.name
    }

    open spec fn spec_command(&self) -> Seq<char> {
        self@.command
    }

    open spec fn spec_is_applicable(&self, vars: Seq<VariableView>) -> Result<bool, Seq<char>> {
        Ok(true)
    }

    fn command(&self) -> (r: &str) {
        self.command.as_str()
    }

    fn name(&self) -> (r: &str) {
        self.name.as_str()
    }

    fn is_applicable(&self, variables: &Vec<Variable>) -> (r: Result<bool, String>) {
        Ok(true)
    }
}

impl ConditionTrait for Command {
    open spec fn spec_conditions(&self) -> Option<Seq<ConditionView>> {
        self@.conditions
    }

    fn get_conditions(&self) -> (r: Option<&Vec<Condition>>) {
        match &self.conditions {
            Some(cs) => Some(cs),
            None => None,
        }
    }
}

impl CommandTrait for Dependency {
    open spec fn spec_name(&self) -> Seq<char> {
        self@.name
    }

    open spec fn spec_command(&self) -> Seq<char> {
        self@.command
    }

    open spec fn spec_is_applicable(&self, vars: Seq<VariableView>) -> Result<bool, Seq<char>> {
        spec_applicable(self@.when, vars)
    }

    fn command(&self) -> (r: &str) {
        self.command.as_str()
    }

    fn name(&self) -> (r: &str) {
        self.name.as_str()
    }

    fn is_applicable(&self, variables: &Vec<Variable>) -> (r: Result<bool, String>) {
        self.is_applicable(variables)
    }
}

impl ConditionTrait for Dependency {
    open spec fn spec_conditions(&self) -> Option<Seq<ConditionView>> {
        self@.when
    }

    fn get_conditions(&self) -> (r: Option<&Vec<Condition>>) {
        match &self.when {
            Some(cs) => Some(cs),
            None => None,
        }
    }
}

} // verus!
