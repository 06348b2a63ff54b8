use vstd::prelude::*;

use crate::copy::{join, join_path};

verus! {

/// Why the options cannot be used.
#[derive(Debug)]
pub enum OptError {
    /// No configuration file was found.
    NoConfigFile,
    /// The output path is missing or not valid text.
    InvalidOutputPath,
}

/// The message shown to the user for an error.
pub open spec fn opt_error_message(e: OptError) -> Seq<char> {
    match e {
        OptError::NoConfigFile => "No config file found. Please create one at $HOME/.ctp.toml or pass in a config file location with --config."@,
        OptError::InvalidOutputPath => "Output path is not a valid path."@,
    }
}

impl OptError {
    /// The message shown to the user.
    pub fn to_string(&self) -> (r: String)
        ensures
            r@ == opt_error_message(*self),
    {
        match self {
            OptError::NoConfigFile => String::from_str(
                "No config file found. Please create one at $HOME/.ctp.toml or pass in a config file location with --config.",
            ),
            OptError::InvalidOutputPath => String::from_str("Output path is not a valid path."),
        }
    }
}

/// What a run is asked to do.
pub struct Opts {
    /// Where the configuration file is.
    pub config: Option<String>,
    /// The language whose template is used.
    pub language: String,
    /// The name of the new project.
    pub project_name: String,
    /// Where the new project goes.
    pub output: Option<String>,
}

/// The file name of the configuration in the home directory.
pub open spec fn config_file_name() -> Seq<char> {
    seq!['.', 'c', 't', 'p', '.', 't', 'o', 'm', 'l']
}

/// The directory that a relative output path starts from.
pub open spec fn current_dir_prefix() -> Seq<char> {
    seq!['.', '/']
}

impl Opts {
    /// Fills in what was not given: the configuration file in the home directory `home`, and
    /// the output directory named after the project in the current directory.
    pub fn with_defaults(self, home: &str) -> (r: Opts)
        ensures
            r.language == self.language,
            r.project_name == self.project_name,
            match self.config {
                Some(c) => r.config == Some(c),
                None => r.config matches Some(c) && c@ == join(home@, config_file_name()),
            },
            match self.output {
                Some(o) => r.output == Some(o),
                None => r.output matches Some(o) && o@ == join(
                    current_dir_prefix(),
                    self.project_name@,
                ),
            },
    {
        proof {
            reveal_strlit(".ctp.toml");
            reveal_strlit("./");
        }
        let config = match self.config {
            Some(c) => Some(c),
            None => Some(join_path(home, ".ctp.toml")),
        };
        let output = match self.output {
            Some(o) => Some(o),
            None => Some(join_path("./", self.project_name.as_str())),
        };
        Opts { config, language: self.language, project_name: self.project_name, output }
    }

    /// Refuses to go on without a configuration file; `found` tells whether the file that
    /// `config` names exists.
    pub fn require_config(&self, found: bool) -> (r: Result<(), OptError>)
        ensures
            match r {
                Ok(_) => self.config is Some && found,
                Err(e) => e is NoConfigFile && !(self.config is Some && found),
            },
    {
        if self.config.is_none() || !found {
            return Err(OptError::NoConfigFile);
        }
        Ok(())
    }
}

/// The output path of the run.
pub fn get_output_path(opts: &Opts) -> (r: Result<&str, OptError>)
    ensures
        match r {
            Ok(p) => opts.output matches Some(o) && o@ == p@,
            Err(e) => e is InvalidOutputPath && opts.output is None,
        },
{
    match &opts.output {
        Some(o) => Ok(o.as_str()),
        None => Err(OptError::InvalidOutputPath),
    }
}

} // verus!
