//! The engine of a project-template tool: a configuration document declares
//! variables, environment entries, files to copy and three ordered command
//! phases; this crate resolves the variables, decides which steps apply,
//! expands `{{name}}` placeholders (shell-quoting replacements on demand),
//! and plans command batches and file copies. Every function here carries a
//! contract checked by Verus; the process, file and terminal work around it
//! lives outside the crate.

pub mod cli;
pub mod command;
pub mod condition;
pub mod configuration;
pub mod environment;
pub mod errors;
pub mod executor;
pub mod prompt;
pub mod resolve;
pub mod substitute;
pub mod template_file;
pub mod variable;

pub use cli::Args;
pub use cli::ConfigType;
pub use command::Command;
pub use command::CommandTrait;
pub use command::CommandView;
pub use command::ConditionTrait;
pub use command::Dependency;
pub use command::DependencyView;
pub use condition::has_applicable_conditions;
pub use condition::Condition;
pub use condition::ConditionOperator;
pub use condition::ConditionView;
pub use configuration::validate_configuration;
pub use configuration::Configuration;
pub use configuration::ConfigurationView;
pub use environment::EnvVar;
pub use environment::EnvVarSliceExt;
pub use environment::EnvVarView;
pub use errors::ParserError;
pub use errors::UtilsError;
pub use executor::command_outcome;
pub use executor::plan_commands;
pub use executor::prepare_command;
pub use executor::record_outcomes;
pub use executor::CommandOutcome;
pub use executor::CommandPlan;
pub use executor::Project;
pub use executor::RunResult;
pub use prompt::prompt_bool_default;
pub use prompt::prompt_description;
pub use prompt::prompt_options;
pub use prompt::prompt_text_default;
pub use resolve::add_default_variables;
pub use resolve::gather_variables;
pub use resolve::resolve_working_dir;
pub use substitute::prepare_command_string;
pub use substitute::replace_variables;
pub use template_file::plan_template_files;
pub use template_file::FilePlan;
pub use template_file::TemplateFile;
pub use template_file::TemplateFileType;
pub use template_file::TemplateFileView;
pub use variable::ValueView;
pub use variable::Variable;
pub use variable::VariableType;
pub use variable::VariableValue;
pub use variable::VariableView;
