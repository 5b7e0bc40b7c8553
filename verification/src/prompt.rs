use vstd::prelude::*;
use vstd::string::StringExecFns;

use crate::substitute::true_chars;
use crate::variable::{clone_strings, Variable, VariableType, VariableView};

verus! {

/// The question shown when asking for a variable: its description, and,
/// when a default is declared, that default spelled out — as `yes`/`no`
/// for a boolean, quoted verbatim otherwise.
pub open spec fn spec_prompt_description(v: VariableView) -> Seq<char> {
    match v.default {
        None => v.description,
        Some(d) => v.description + " (default: "@ + (match v.var_type {
            VariableType::Boolean => if d == true_chars() {
                "yes"@
            } else {
                "no"@
            },
            _ => "\""@ + d + "\""@,
        }) + ")"@,
    }
}

/// Builds the question to show when prompting for `variable`.
pub fn prompt_description(variable: &Variable) -> (r: String)
    ensures
        r@ == spec_prompt_description(variable@),
{
    match &variable.default {
        None => variable.description.clone(),
        Some(d) => {
            let default_text: String = match variable.var_type {
                VariableType::Boolean => {
                    let t = "true".to_owned();
                    proof {
                        reveal_strlit("true");
                        assert(t@ =~= true_chars());
                    }
                    if *d == t {
                        "yes".to_owned()
                    } else {
                        "no".to_owned()
                    }
                },
                _ => {
                    let mut quoted = "\"".to_owned();
                    quoted.append(d.as_str());
                    quoted.append("\"");
                    quoted
                },
            };
            let mut r = variable.description.clone();
            r.append(" (default: ");
            r.append(default_text.as_str());
            r.append(")");
            r
        },
    }
}

/// The preselection of a yes/no prompt: `true` exactly when the declared
/// default reads `true`; a variable without a default starts at `false`.
pub open spec fn spec_prompt_bool_default(v: VariableView) -> bool {
    match v.default {
        Some(d) => d == true_chars(),
        None => false,
    }
}

/// The preselection to use when asking for a boolean variable.
pub fn prompt_bool_default(variable: &Variable) -> (r: bool)
    ensures
        r == spec_prompt_bool_default(variable@),
{
    match &variable.default {
        Some(d) => {
            let t = "true".to_owned();
            proof {
                reveal_strlit("true");
                assert(t@ =~= true_chars());
            }
            *d == t
        },
        None => false,
    }
}

/// The prefilled text of a free-text prompt: the declared default, or
/// nothing.
pub open spec fn spec_prompt_text_default(v: VariableView) -> Seq<char> {
    match v.default {
        Some(d) => d,
        None => Seq::empty(),
    }
}

/// The text to prefill when asking for a string variable.
pub fn prompt_text_default(variable: &Variable) -> (r: String)
    ensures
        r@ == spec_prompt_text_default(variable@),
{
    match &variable.default {
        Some(d) => d.clone(),
        None => String::new(),
    }
}

/// The choices of a selection prompt: the declared options, or none.
pub open spec fn spec_prompt_options(v: VariableView) -> Seq<Seq<char>> {
    match v.options {
        Some(options) => options,
        None => Seq::empty(),
    }
}

/// The choices to offer when asking for a selection variable.
pub fn prompt_options(variable: &Variable) -> (r: Vec<String>)
    ensures
        r.deep_view() == spec_prompt_options(variable@),
{
    match &variable.options {
        Some(options) => clone_strings(options),
        None => {
            let r: Vec<String> = Vec::new();
            assert(r.deep_view() =~= Seq::<Seq<char>>::empty());
            r
        },
    }
}

} // verus!
