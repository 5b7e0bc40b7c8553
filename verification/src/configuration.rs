use vstd::prelude::*;

use crate::command::{Command, CommandView, Dependency, DependencyView};
use crate::environment::{EnvVar, EnvVarView};
use crate::errors::ParserError;
use crate::substitute::{false_chars, true_chars};
use crate::template_file::{TemplateFile, TemplateFileView};
use crate::variable::{Variable, VariableType, VariableView};

verus! {

/// The whole parsed template document: three ordered command phases, the
/// declared environment, the variables to resolve, and the files to copy.
#[derive(Debug)]
pub struct Configuration {
    pub name: String,
    pub description: String,
    pub version: String,
    pub pre_commands: Vec<Command>,
    pub environment: Vec<EnvVar>,
    pub dependencies: Vec<Dependency>,
    pub variables: Vec<Variable>,
    pub template_files: Vec<TemplateFile>,
    pub post_commands: Vec<Command>,
}

/// Mathematical model of a `Configuration`.
pub struct ConfigurationView {
    pub name: Seq<char>,
    pub description: Seq<char>,
    pub version: Seq<char>,
    pub pre_commands: Seq<CommandView>,
    pub environment: Seq<EnvVarView>,
    pub dependencies: Seq<DependencyView>,
    pub variables: Seq<VariableView>,
    pub template_files: Seq<TemplateFileView>,
    pub post_commands: Seq<CommandView>,
}

impl View for Configuration {
    type V = ConfigurationView;

    open spec fn view(&self) -> ConfigurationView {
        ConfigurationView {
            name: self.name@,
            description: self.description@,
            version: self.version@,
            pre_commands: self.pre_commands.deep_view(),
            environment: self.environment.deep_view(),
            dependencies: self.dependencies.deep_view(),
            variables: self.variables.deep_view(),
            template_files: self.template_files.deep_view(),
            post_commands: self.post_commands.deep_view(),
        }
    }
}

/// Whether a variable's declared default fits its type: a Boolean default
/// must read `true` or `false`, a Select default must be one of the
/// declared options (so a Select with a default but no options is
/// rejected), and a String default is always acceptable, as is having no
/// default at all.
pub open spec fn spec_default_ok(v: VariableView) -> bool {
    match v.default {
        None => true,
        Some(d) => match v.var_type {
            VariableType::String => true,
            VariableType::Boolean => d == true_chars() || d == false_chars(),
            VariableType::Select => match v.options {
                Some(options) => options.contains(d),
                None => false,
            },
        },
    }
}

/// Index of the first variable whose default does not fit its type,
/// scanning from `from`.
pub open spec fn spec_first_invalid(vars: Seq<VariableView>, from: int) -> Option<int>
    decreases vars.len() - from,
{
    if from < 0 || from >= vars.len() {
        None
    } else if !spec_default_ok(vars[from]) {
        Some(from)
    } else {
        spec_first_invalid(vars, from + 1)
    }
}

/// No variable is flagged from `from` on exactly when every variable from
/// `from` on has an acceptable default.
pub proof fn lemma_all_defaults_ok(vars: Seq<VariableView>, from: int)
    requires
        0 <= from,
    ensures
        spec_first_invalid(vars, from) is None <==> (forall|i: int|
            from <= i < vars.len() ==> spec_default_ok(#[trigger] vars[i])),
    decreases vars.len() - from,
{
    if !(from < 0 || from >= vars.len()) {
        lemma_all_defaults_ok(vars, from + 1);
    }
}

/// Checks whether `options` contains the string `d`.
fn contains_string(options: &Vec<String>, d: &String) -> (r: bool)
    ensures
        r == options.deep_view().contains(d@),
{
    let ghost dv = options.deep_view();
    let mut j: usize = 0;
    while j < options.len()
        invariant
            j <= options.len(),
            dv == options.deep_view(),
            dv.len() == options.len(),
            forall|k: int| 0 <= k < j ==> dv[k] != d@,
        decreases options.len() - j,
    {
        assert(dv[j as int] == options[j as int]@);
        if options[j] == *d {
            assert(dv.contains(d@));
            return true;
        }
        j = j + 1;
    }
    assert(!dv.contains(d@));
    false
}

/// Checks that every variable's declared default fits its type, accepting
/// the configuration exactly when they all do, and rejecting it with the
/// name of the first offending variable otherwise.
pub fn validate_configuration(configuration: &Configuration) -> (r: Result<(), ParserError>)
    ensures
        r is Ok <==> (forall|i: int|
            0 <= i < configuration@.variables.len() ==> spec_default_ok(
                #[trigger] configuration@.variables[i],
            )),
        match spec_first_invalid(configuration@.variables, 0) {
            None => r is Ok,
            Some(i) => r matches Err(ParserError::InvalidDefaultValue(n)) && n@
                == configuration@.variables[i].name,
        },
{
    proof {
        lemma_all_defaults_ok(configuration@.variables, 0);
    }
    let variables = &configuration.variables;
    let ghost vv = configuration@.variables;
    let mut i: usize = 0;
    while i < variables.len()
        invariant
            i <= variables.len(),
            vv == variables.deep_view(),
            vv == configuration@.variables,
            vv.len() == variables.len(),
            spec_first_invalid(vv, 0) == spec_first_invalid(vv, i as int),
        decreases variables.len() - i,
    {
        assert(vv[i as int] == variables[i as int]@);
        let variable = &variables[i];
        let ok: bool = match &variable.default {
            None => true,
            Some(d) => match variable.var_type {
                VariableType::String => true,
                VariableType::Boolean => {
                    let t = "true".to_owned();
                    let f = "false".to_owned();
                    proof {
                        reveal_strlit("true");
                        reveal_strlit("false");
                        assert(t@ =~= true_chars());
                        assert(f@ =~= false_chars());
                    }
                    *d == t || *d == f
                },
                VariableType::Select => match &variable.options {
                    Some(options) => contains_string(options, d),
                    None => false,
                },
            },
        };
        assert(ok == spec_default_ok(vv[i as int]));
        if !ok {
            proof {
                lemma_all_defaults_ok(vv, 0);
            }
            return Err(ParserError::InvalidDefaultValue(variable.name.clone()));
        }
        assert(spec_first_invalid(vv, i as int) == spec_first_invalid(vv, i as int + 1));
        i = i + 1;
    }
    proof {
        lemma_all_defaults_ok(vv, 0);
    }
    Ok(())
}

} // verus!
