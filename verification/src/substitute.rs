use vstd::prelude::*;
use vstd::string::StringExecFns;

use crate::errors::UtilsError;
use crate::variable::{ValueView, Variable, VariableValue, VariableView};

verus! {

/// Characters that never need quoting for a POSIX shell.
pub open spec fn shell_safe_char(c: char) -> bool {
    ('a' <= c && c <= 'z') || ('A' <= c && c <= 'Z') || ('0' <= c && c <= '9') || c == '-' || c
        == '_' || c == '=' || c == '/' || c == ',' || c == '.' || c == '+'
}

/// Whether every character of `s` is shell-safe.
pub open spec fn all_shell_safe(s: Seq<char>) -> bool {
    forall|i: int| 0 <= i < s.len() ==> shell_safe_char(s[i])
}

/// How a single character is rendered inside a single-quoted shell string:
/// `'` and `!` are spliced out of the quoting, everything else is kept.
pub open spec fn spec_escape_char(c: char) -> Seq<char> {
    if c == '\'' || c == '!' {
        seq!['\'', '\\', c, '\'']
    } else {
        seq![c]
    }
}

/// The quoted body of a shell-escaped string.
pub open spec fn spec_escape_body(s: Seq<char>) -> Seq<char>
    decreases s.len(),
{
    if s.len() == 0 {
        Seq::empty()
    } else {
        spec_escape_char(s[0]) + spec_escape_body(s.skip(1))
    }
}

/// Shell-quoting of an arbitrary string: a non-empty string made only of
/// shell-safe characters is kept as it is; anything else is wrapped in
/// single quotes with `'` and `!` spliced.
pub open spec fn spec_shell_escape(s: Seq<char>) -> Seq<char> {
    if s.len() > 0 && all_shell_safe(s) {
        s
    } else {
        seq!['\''] + spec_escape_body(s) + seq!['\'']
    }
}

/// Relies on `shell_escape::unix::escape`: it returns a non-empty input of
/// whitelisted characters unchanged, and otherwise wraps the input in single
/// quotes, splicing each embedded `'` or `!` out of the quoting.
#[verifier::external_body]
fn shell_escape_str(s: &str) -> (r: String)
    ensures
        r@ == spec_shell_escape(s@),
{
    shell_escape::unix::escape(std::borrow::Cow::Borrowed(s)).into_owned()
}

/// A replacement as it is inserted into the output: shell-quoted when the
/// expansion runs in escaping mode, verbatim otherwise.
pub open spec fn spec_prepare(value: Seq<char>, clean: bool) -> Seq<char> {
    if clean {
        spec_shell_escape(value)
    } else {
        value
    }
}

/// Renders a replacement value, shell-quoting it when `clean` is set.
pub fn prepare_command_string(value: &str, clean: &bool) -> (r: String)
    ensures
        r@ == spec_prepare(value@, *clean),
{
    if *clean {
        shell_escape_str(value)
    } else {
        value.to_owned()
    }
}

/// The characters of the textual form of `true`.
pub open spec fn true_chars() -> Seq<char> {
    seq!['t', 'r', 'u', 'e']
}

/// The characters of the textual form of `false`.
pub open spec fn false_chars() -> Seq<char> {
    seq!['f', 'a', 'l', 's', 'e']
}

/// The text a resolved value contributes to an expansion, before quoting:
/// a string renders as its text, a boolean as `true` or `false`, a
/// selection as its first option; an empty selection has no rendering.
pub open spec fn spec_render_value(v: ValueView, clean: bool) -> Option<Seq<char>> {
    match v {
        ValueView::String(s) => Some(spec_prepare(s, clean)),
        ValueView::Boolean(b) => Some(
            spec_prepare(
                if b {
                    true_chars()
                } else {
                    false_chars()
                },
                clean,
            ),
        ),
        ValueView::Select(options) => if options.len() > 0 {
            Some(spec_prepare(options[0], clean))
        } else {
            None
        },
    }
}

/// Renders the replacement text of a resolved value, or nothing for an
/// empty selection.
fn render_value(value: &VariableValue, clean: &bool) -> (r: Option<String>)
    ensures
        match (r, spec_render_value(value@, *clean)) {
            (Some(s), Some(t)) => s@ == t,
            (None, None) => true,
            _ => false,
        },
{
    match value {
        VariableValue::String(s) => Some(prepare_command_string(s.as_str(), clean)),
        VariableValue::Boolean(b) => {
            let text = if *b {
                "true"
            } else {
                "false"
            };
            proof {
                reveal_strlit("true");
                reveal_strlit("false");
                if *b {
                    assert(text@ =~= true_chars());
                } else {
                    assert(text@ =~= false_chars());
                }
            }
            Some(prepare_command_string(text, clean))
        },
        VariableValue::Select(options) => {
            if options.len() > 0 {
                assert(options.deep_view()[0] == options@[0]@);
                Some(prepare_command_string(options[0].as_str(), clean))
            } else {
                None
            }
        },
    }
}

/// The resolved value a placeholder name selects: that of the first
/// variable with exactly this name that carries a value, scanning from
/// `from`.
pub open spec fn spec_lookup_value_from(
    vars: Seq<VariableView>,
    name: Seq<char>,
    from: int,
) -> Option<ValueView>
    decreases vars.len() - from,
{
    if from < 0 || from >= vars.len() {
        None
    } else if vars[from].name == name && vars[from].value is Some {
        vars[from].value
    } else {
        spec_lookup_value_from(vars, name, from + 1)
    }
}

/// The resolved value a placeholder name selects, if any.
pub open spec fn spec_lookup_value(vars: Seq<VariableView>, name: Seq<char>) -> Option<ValueView> {
    spec_lookup_value_from(vars, name, 0)
}

/// Finds the resolved value of the variable a placeholder names.
fn lookup_value<'a>(variables: &'a Vec<Variable>, name: &String) -> (r: Option<&'a VariableValue>)
    ensures
        match (r, spec_lookup_value(variables.deep_view(), name@)) {
            (Some(v), Some(m)) => v@ == m,
            (None, None) => true,
            _ => false,
        },
{
    let ghost dv = variables.deep_view();
    let mut i: usize = 0;
    while i < variables.len()
        invariant
            i <= variables.len(),
            dv == variables.deep_view(),
            dv.len() == variables.len(),
            spec_lookup_value(dv, name@) == spec_lookup_value_from(dv, name@, i as int),
        decreases variables.len() - i,
    {
        assert(dv[i as int] == variables[i as int]@);
        if variables[i].name == *name {
            match &variables[i].value {
                Some(value) => {
                    return Some(value);
                },
                None => {},
            }
        }
        assert(spec_lookup_value_from(dv, name@, i as int) == spec_lookup_value_from(
            dv,
            name@,
            i as int + 1,
        ));
        i = i + 1;
    }
    None
}

/// Position of the first `}}` at or after `from`, if any.
pub open spec fn spec_find_close(s: Seq<char>, from: int) -> Option<int>
    decreases s.len() - from,
{
    if from < 0 || from + 1 >= s.len() {
        None
    } else if s[from] == '}' && s[from + 1] == '}' {
        Some(from)
    } else {
        spec_find_close(s, from + 1)
    }
}

/// A found closer lies between `from` and the second-to-last position.
pub proof fn lemma_find_close_bounds(s: Seq<char>, from: int)
    ensures
        match spec_find_close(s, from) {
            Some(c) => from <= c && c + 1 < s.len(),
            None => true,
        },
    decreases s.len() - from,
{
    if !(from < 0 || from + 1 >= s.len()) && !(s[from] == '}' && s[from + 1] == '}') {
        lemma_find_close_bounds(s, from + 1);
    }
}

/// Scans for the first `}}` at or after `start`.
fn find_close(input: &str, start: usize) -> (r: Option<usize>)
    ensures
        match (r, spec_find_close(input@, start as int)) {
            (Some(j), Some(sj)) => j == sj,
            (None, None) => true,
            _ => false,
        },
{
    let ghost s = input@;
    let n = input.unicode_len();
    if start >= n {
        return None;
    }
    let mut j: usize = start;
    while j + 1 < n
        invariant
            s == input@,
            n == s.len(),
            spec_find_close(s, start as int) == spec_find_close(s, j as int),
            start <= j < n,
        decreases n - j,
    {
        if input.get_char(j) == '}' && input.get_char(j + 1) == '}' {
            return Some(j);
        }
        assert(spec_find_close(s, j as int) == spec_find_close(s, j as int + 1));
        j = j + 1;
    }
    None
}

/// The expansion of `s[from..]` against the resolved variables: literal text
/// is copied; each `{{name}}` token (closed by the first following `}}`) is
/// replaced by the rendering of the named variable's value; an unclosed
/// `{{`, like any stray brace, is copied literally. The first token naming
/// a variable with no usable value makes the whole expansion fail with that
/// name.
pub open spec fn spec_substitute_from(
    s: Seq<char>,
    vars: Seq<VariableView>,
    clean: bool,
    from: int,
) -> Result<Seq<char>, Seq<char>>
    decreases s.len() - from,
    via spec_substitute_from_decreases
{
    if from < 0 || from >= s.len() {
        Ok(Seq::empty())
    } else if from + 1 < s.len() && s[from] == '{' && s[from + 1] == '{' && spec_find_close(
        s,
        from + 2,
    ) is Some {
        match spec_find_close(s, from + 2) {
            Some(close) => {
                let name = s.subrange(from + 2, close);
                match spec_lookup_value(vars, name) {
                    None => Err(name),
                    Some(v) => match spec_render_value(v, clean) {
                        None => Err(name),
                        Some(rendered) => match spec_substitute_from(s, vars, clean, close + 2) {
                            Ok(rest) => Ok(rendered + rest),
                            Err(e) => Err(e),
                        },
                    },
                }
            },
            None => Ok(Seq::empty()),
        }
    } else {
        match spec_substitute_from(s, vars, clean, from + 1) {
            Ok(rest) => Ok(seq![s[from]] + rest),
            Err(e) => Err(e),
        }
    }
}

#[via_fn]
proof fn spec_substitute_from_decreases(
    s: Seq<char>,
    vars: Seq<VariableView>,
    clean: bool,
    from: int,
) {
    lemma_find_close_bounds(s, from + 2);
}

/// The expansion of a whole string against the resolved variables.
pub open spec fn spec_substitute(
    s: Seq<char>,
    vars: Seq<VariableView>,
    clean: bool,
) -> Result<Seq<char>, Seq<char>> {
    spec_substitute_from(s, vars, clean, 0)
}

/// Expands every `{{name}}` placeholder of `input` against the resolved
/// variables, shell-quoting each replacement when `clean` is set. Fails
/// with the placeholder's name when it names a variable that has no
/// resolved value (or an empty selection), leaving no partial output.
pub fn replace_variables(input: &str, variables: &Vec<Variable>, clean: &bool) -> (r: Result<
    String,
    UtilsError,
>)
    ensures
        match (r, spec_substitute(input@, variables.deep_view(), *clean)) {
            (Ok(s), Ok(t)) => s@ == t,
            (Err(UtilsError::VariableNotSet(n)), Err(name)) => n@ == name,
            _ => false,
        },
{
    let ghost s = input@;
    let ghost dv = variables.deep_view();
    let ghost cl = *clean;
    let n = input.unicode_len();
    let mut result = String::new();
    let mut idx: usize = 0;
    while idx < n
        invariant
            idx <= n,
            s == input@,
            dv == variables.deep_view(),
            cl == *clean,
            n == s.len(),
            match spec_substitute_from(s, dv, cl, idx as int) {
                Ok(rest) => spec_substitute(s, dv, cl) == Ok::<Seq<char>, Seq<char>>(
                    result@ + rest,
                ),
                Err(e) => spec_substitute(s, dv, cl) == Err::<Seq<char>, Seq<char>>(e),
            },
        decreases n - idx,
    {
        let ghost prefix = result@;
        let c = input.get_char(idx);
        let mut token_handled = false;
        if c == '{' && idx + 1 < n {
            if input.get_char(idx + 1) == '{' {
                match find_close(input, idx + 2) {
                    None => {},
                    Some(close) => {
                        proof {
                            lemma_find_close_bounds(s, idx as int + 2);
                        }
                        let name = input.substring_char(idx + 2, close).to_owned();
                        let ghost name_view = s.subrange(idx as int + 2, close as int);
                        assert(name@ == name_view);
                        match lookup_value(variables, &name) {
                            None => {
                                assert(spec_substitute_from(s, dv, cl, idx as int) == Err::<
                                    Seq<char>,
                                    Seq<char>,
                                >(name_view));
                                return Err(UtilsError::VariableNotSet(name));
                            },
                            Some(value) => {
                                match render_value(value, clean) {
                                    None => {
                                        assert(spec_substitute_from(s, dv, cl, idx as int) == Err::<
                                            Seq<char>,
                                            Seq<char>,
                                        >(name_view));
                                        return Err(UtilsError::VariableNotSet(name));
                                    },
                                    Some(rendered) => {
                                        result.append(rendered.as_str());
                                        proof {
                                            match spec_substitute_from(
                                                s,
                                                dv,
                                                cl,
                                                close as int + 2,
                                            ) {
                                                Ok(rest) => {
                                                    assert(result@ + rest =~= prefix + (rendered@
                                                        + rest));
                                                },
                                                Err(e) => {},
                                            }
                                        }
                                        idx = close + 2;
                                        token_handled = true;
                                    },
                                }
                            },
                        }
                    },
                }
            }
        }
        if !token_handled {
            let piece = input.substring_char(idx, idx + 1);
            assert(piece@ =~= seq![s[idx as int]]);
            result.append(piece);
            proof {
                match spec_substitute_from(s, dv, cl, idx as int + 1) {
                    Ok(rest) => {
                        assert(result@ + rest =~= prefix + (seq![s[idx as int]] + rest));
                    },
                    Err(e) => {},
                }
            }
            idx = idx + 1;
        }
    }
    assert(spec_substitute_from(s, dv, cl, n as int) == Ok::<Seq<char>, Seq<char>>(Seq::empty()));
    assert(result@ + Seq::<char>::empty() =~= result@);
    Ok(result)
}

} // verus!
