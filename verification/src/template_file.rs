use vstd::prelude::*;

use crate::errors::UtilsError;
use crate::substitute::{replace_variables, spec_substitute};
use crate::variable::{Variable, VariableView};

verus! {

/// Whether a template entry names a single file or a whole folder.
#[derive(Debug, PartialEq, Eq, Structural)]
pub enum TemplateFileType {
    Folder,
    File,
}

impl Clone for TemplateFileType {
    fn clone(&self) -> (r: Self)
        ensures
            r == *self,
    {
        match self {
            TemplateFileType::Folder => TemplateFileType::Folder,
            TemplateFileType::File => TemplateFileType::File,
        }
    }
}

/// A declared file or folder to copy into the project; both paths may
/// contain `{{name}}` placeholders.
#[derive(Debug)]
pub struct TemplateFile {
    pub source: String,
    pub destination: String,
    pub file_type: TemplateFileType,
}

/// Mathematical model of a `TemplateFile`.
pub struct TemplateFileView {
    pub source: Seq<char>,
    pub destination: Seq<char>,
    pub file_type: TemplateFileType,
}

impl View for TemplateFile {
    type V = TemplateFileView;

    open spec fn view(&self) -> TemplateFileView {
        TemplateFileView {
            source: self.source@,
            destination: self.destination@,
            file_type: self.file_type,
        }
    }
}

impl DeepView for TemplateFile {
    type V = TemplateFileView;

    open spec fn deep_view(&self) -> TemplateFileView {
        self.view()
    }
}

/// What is to be done for one template entry: copy between two fully
/// resolved paths, or record why the entry cannot be processed. A failed
/// entry never stops the others.
#[derive(Debug)]
pub enum FilePlan {
    Copy { source: String, destination: String, file_type: TemplateFileType },
    Fail { error: UtilsError },
}

/// The resolved source and destination of one entry: both path templates
/// expanded without shell-quoting, or the name of the first placeholder
/// that has no value.
pub open spec fn spec_file_plan(f: TemplateFileView, vars: Seq<VariableView>) -> Result<
    (Seq<char>, Seq<char>),
    Seq<char>,
> {
    match spec_substitute(f.source, vars, false) {
        Err(name) => Err(name),
        Ok(src) => match spec_substitute(f.destination, vars, false) {
            Err(name) => Err(name),
            Ok(dst) => Ok((src, dst)),
        },
    }
}

/// Whether a plan entry is the right outcome for a template entry.
pub open spec fn file_plan_matches(p: FilePlan, f: TemplateFileView, vars: Seq<VariableView>) -> bool {
    match spec_file_plan(f, vars) {
        Ok(paths) => p matches FilePlan::Copy { source, destination, file_type } && source@
            == paths.0 && destination@ == paths.1 && file_type == f.file_type,
        Err(name) => p matches FilePlan::Fail { error: UtilsError::VariableNotSet(n) } && n@
            == name,
    }
}

/// Resolves the paths of every declared template entry, expanding
/// placeholders without shell-quoting. Each entry is planned on its own:
/// one entry's failure is recorded in its slot and the remaining entries
/// are still planned.
pub fn plan_template_files(files: &Vec<TemplateFile>, variables: &Vec<Variable>) -> (r: Vec<
    FilePlan,
>)
    ensures
        r@.len() == files@.len(),
        forall|i: int|
            0 <= i < files@.len() ==> file_plan_matches(
                #[trigger] r@[i],
                files.deep_view()[i],
                variables.deep_view(),
            ),
{
    let ghost fv = files.deep_view();
    let ghost dv = variables.deep_view();
    let mut r: Vec<FilePlan> = Vec::new();
    let mut i: usize = 0;
    while i < files.len()
        invariant
            i <= files.len(),
            fv == files.deep_view(),
            dv == variables.deep_view(),
            fv.len() == files.len(),
            r@.len() == i,
            forall|k: int| 0 <= k < i ==> file_plan_matches(#[trigger] r@[k], fv[k], dv),
        decreases files.len() - i,
    {
        assert(fv[i as int] == files[i as int]@);
        let file = &files[i];
        let plan = match replace_variables(file.source.as_str(), variables, &false) {
            Err(e) => FilePlan::Fail { error: e },
            Ok(source) => match replace_variables(file.destination.as_str(), variables, &false) {
                Err(e) => FilePlan::Fail { error: e },
                Ok(destination) => FilePlan::Copy {
                    source,
                    destination,
                    file_type: file.file_type.clone(),
                },
            },
        };
        r.push(plan);
        i = i + 1;
    }
    r
}

} // verus!
