use vstd::prelude::*;

verus! {

/// Which document format the configuration file uses.
#[derive(Debug, Clone, Copy, PartialEq, Eq, Structural)]
pub enum ConfigType {
    Yaml,
    Json,
}

impl Default for ConfigType {
    fn default() -> (r: Self)
        ensures
            r == ConfigType::Yaml,
    {
        ConfigType::Yaml
    }
}

/// The invocation a run starts from: the configuration document's path,
/// an optional working directory, the document format, and whether
/// replacements are shell-quoted.
#[derive(Debug)]
pub struct Args {
    pub config: String,
    pub working_dir: Option<String>,
    pub config_type: ConfigType,
    pub clean: Option<bool>,
}

/// Mathematical model of `Args`.
pub struct ArgsView {
    pub config: Seq<char>,
    pub working_dir: Option<Seq<char>>,
    pub config_type: ConfigType,
    pub clean: Option<bool>,
}

impl View for Args {
    type V = ArgsView;

    open spec fn view(&self) -> ArgsView {
        ArgsView {
            config: self.config@,
            working_dir: self.working_dir.deep_view(),
            config_type: self.config_type,
            clean: self.clean,
        }
    }
}

} // verus!
